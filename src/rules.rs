//! The rules on a tweet's two texts.
use vstd::prelude::*;

verus! {

/// Most characters a topic may hold.
pub const TOPIC_MAX_LENGTH: usize = 50;

/// Most characters a content may hold.
pub const CONTENT_MAX_LENGTH: usize = 280;

/// Bytes of the type tag that opens every stored record.
pub const DISCRIMINATOR_LENGTH: usize = 8;

/// Bytes reserved for one record: the type tag, the authority's key (32), the
/// timestamp (8), and each text with its 4-byte length prefix.
pub const TWEET_ACCOUNT_SIZE: usize = DISCRIMINATOR_LENGTH + 32 + 8 + (4 + TOPIC_MAX_LENGTH) + (4
    + CONTENT_MAX_LENGTH);

/// Why a tweet was refused.
#[derive(Debug, Clone, Copy, PartialEq, Eq, Structural)]
pub enum ErrorCode {
    /// The topic is empty once trimmed.
    TopicCannotBeEmpty,
    /// The content is empty once trimmed.
    ContentCannotBeEmpty,
    /// The topic has more than `TOPIC_MAX_LENGTH` characters.
    TopicTooLong,
    /// The content has more than `CONTENT_MAX_LENGTH` characters.
    ContentTooLong,
}

impl ErrorCode {
    /// The message shown to the caller for this error.
    pub fn message(&self) -> (r: &'static str)
        ensures
            r@ == error_message(*self),
    {
        match self {
            ErrorCode::TopicCannotBeEmpty => "The provided topic should not be empty.",
            ErrorCode::ContentCannotBeEmpty => "The provided content should not be empty.",
            ErrorCode::TopicTooLong => "The provided topic is too long.",
            ErrorCode::ContentTooLong => "The provided content is too long.",
        }
    }
}

/// The message of each error.
pub open spec fn error_message(e: ErrorCode) -> Seq<char> {
    match e {
        ErrorCode::TopicCannotBeEmpty => "The provided topic should not be empty."@,
        ErrorCode::ContentCannotBeEmpty => "The provided content should not be empty."@,
        ErrorCode::TopicTooLong => "The provided topic is too long."@,
        ErrorCode::ContentTooLong => "The provided content is too long."@,
    }
}

/// Unicode's White_Space property: the characters that trimming removes.
pub open spec fn is_white_space(c: char) -> bool {
    let u = c as u32;
    (0x9 <= u <= 0xd) || u == 0x20 || u == 0x85 || u == 0xa0 || u == 0x1680 || (0x2000 <= u
        <= 0x200a) || u == 0x2028 || u == 0x2029 || u == 0x202f || u == 0x205f || u == 0x3000
}

/// A text that is empty once leading and trailing white space is trimmed.
pub open spec fn blank(s: Seq<char>) -> bool {
    forall|i: int| 0 <= i < s.len() ==> is_white_space(#[trigger] s[i])
}

/// The first rule that a topic and a content break, in the order: topic
/// length, content length, blank topic, blank content.
pub open spec fn tweet_error(topic: Seq<char>, content: Seq<char>) -> Option<ErrorCode> {
    if topic.len() > TOPIC_MAX_LENGTH {
        Some(ErrorCode::TopicTooLong)
    } else if content.len() > CONTENT_MAX_LENGTH {
        Some(ErrorCode::ContentTooLong)
    } else if blank(topic) {
        Some(ErrorCode::TopicCannotBeEmpty)
    } else if blank(content) {
        Some(ErrorCode::ContentCannotBeEmpty)
    } else {
        None
    }
}

/// Whether `c` is white space in Unicode's sense.
pub fn is_white_space_char(c: char) -> (r: bool)
    ensures
        r == is_white_space(c),
{
    let u = c as u32;
    (0x9 <= u && u <= 0xd) || u == 0x20 || u == 0x85 || u == 0xa0 || u == 0x1680 || (0x2000 <= u
        && u <= 0x200a) || u == 0x2028 || u == 0x2029 || u == 0x202f || u == 0x205f || u == 0x3000
}

/// Whether `s` holds white space only (an empty text included).
pub fn is_blank(s: &str) -> (r: bool)
    ensures
        r == blank(s@),
{
    let mut all_white: bool = true;
    for c in it: s.chars()
        invariant
            it.seq() == s@,
            all_white == (forall|j: int| 0 <= j < it.index() ==> is_white_space(#[trigger] s@[j])),
    {
        if !is_white_space_char(c) {
            all_white = false;
        }
    }
    all_white
}

/// Checks a topic and a content against the rules; the first rule broken
/// decides the error.
pub fn validate_tweet(topic: &str, content: &str) -> (r: Result<(), ErrorCode>)
    ensures
        r == (match tweet_error(topic@, content@) {
            Some(e) => Err(e),
            None => Ok(()),
        }),
{
    if topic.unicode_len() > TOPIC_MAX_LENGTH {
        return Err(ErrorCode::TopicTooLong);
    }
    if content.unicode_len() > CONTENT_MAX_LENGTH {
        return Err(ErrorCode::ContentTooLong);
    }
    if is_blank(topic) {
        return Err(ErrorCode::TopicCannotBeEmpty);
    }
    if is_blank(content) {
        return Err(ErrorCode::ContentCannotBeEmpty);
    }
    Ok(())
}

} // verus!
