//! Posting short text records ("tweets") to a ledger account.
//!
//! The rules that a tweet must meet, the order in which they are checked, and
//! the way a fresh record slot is filled are stated and proved here. The host
//! runtime is reached only for the signer's key type and the clock.
pub mod laws;
pub mod record;
pub mod rules;

pub use record::{populate_tweet, send_tweet, SendError, Tweet};
pub use rules::{
    is_blank, is_white_space_char, validate_tweet, ErrorCode, CONTENT_MAX_LENGTH,
    DISCRIMINATOR_LENGTH, TOPIC_MAX_LENGTH, TWEET_ACCOUNT_SIZE,
};
