//! Properties of the instruction, proved over the contracts' own terms.
use vstd::prelude::*;

use anchor_lang::prelude::Pubkey;

use crate::record::{send_result, slot_after, SendError, TweetView};
use crate::rules::{blank, ErrorCode, CONTENT_MAX_LENGTH, TOPIC_MAX_LENGTH};

verus! {

/// A topic over the length limit is refused as too long, whatever the content.
pub proof fn lemma_long_topic_refused(topic: Seq<char>, content: Seq<char>)
    requires
        topic.len() > TOPIC_MAX_LENGTH,
    ensures
        send_result(None, topic, content) == Err::<(), SendError>(
            SendError::Invalid(ErrorCode::TopicTooLong),
        ),
{
}

/// With a topic of allowed length, a content over its limit is refused as too
/// long.
pub proof fn lemma_long_content_refused(topic: Seq<char>, content: Seq<char>)
    requires
        topic.len() <= TOPIC_MAX_LENGTH,
        content.len() > CONTENT_MAX_LENGTH,
    ensures
        send_result(None, topic, content) == Err::<(), SendError>(
            SendError::Invalid(ErrorCode::ContentTooLong),
        ),
{
}

/// Within the length limits, an empty or all-white-space topic is refused as
/// empty.
pub proof fn lemma_blank_topic_refused(topic: Seq<char>, content: Seq<char>)
    requires
        topic.len() <= TOPIC_MAX_LENGTH,
        content.len() <= CONTENT_MAX_LENGTH,
        blank(topic),
    ensures
        send_result(None, topic, content) == Err::<(), SendError>(
            SendError::Invalid(ErrorCode::TopicCannotBeEmpty),
        ),
{
}

/// Within the length limits and with a topic that is not blank, an empty or
/// all-white-space content is refused as empty.
pub proof fn lemma_blank_content_refused(topic: Seq<char>, content: Seq<char>)
    requires
        topic.len() <= TOPIC_MAX_LENGTH,
        content.len() <= CONTENT_MAX_LENGTH,
        !blank(topic),
        blank(content),
    ensures
        send_result(None, topic, content) == Err::<(), SendError>(
            SendError::Invalid(ErrorCode::ContentCannotBeEmpty),
        ),
{
}

/// Valid texts on a fresh slot succeed, and the record holds the authority,
/// the timestamp and both texts exactly as given, untrimmed.
pub proof fn lemma_valid_tweet_recorded(
    authority: Pubkey,
    timestamp: i64,
    topic: Seq<char>,
    content: Seq<char>,
)
    requires
        topic.len() <= TOPIC_MAX_LENGTH,
        content.len() <= CONTENT_MAX_LENGTH,
        !blank(topic),
        !blank(content),
    ensures
        send_result(None, topic, content) is Ok,
        slot_after(None, authority, timestamp, topic, content) == Some(
            TweetView { authority, timestamp, topic, content },
        ),
{
}

/// A slot is filled at most once: after a call that succeeded, a second call on
/// the same slot is refused, whatever its inputs, and the first record stays.
pub proof fn lemma_slot_not_reused(
    slot: Option<TweetView>,
    authority: Pubkey,
    timestamp: i64,
    topic: Seq<char>,
    content: Seq<char>,
    authority2: Pubkey,
    timestamp2: i64,
    topic2: Seq<char>,
    content2: Seq<char>,
)
    requires
        send_result(slot, topic, content) is Ok,
    ensures
        ({
            let filled = slot_after(slot, authority, timestamp, topic, content);
            &&& send_result(filled, topic2, content2) == Err::<(), SendError>(
                SendError::AlreadyInitialized,
            )
            &&& slot_after(filled, authority2, timestamp2, topic2, content2) == filled
        }),
{
}

/// The length limits are inclusive: texts of exactly the limits that are not
/// blank succeed, one character more on the topic or on the content fails.
pub proof fn lemma_length_boundaries(
    topic: Seq<char>,
    content: Seq<char>,
    extra_topic: Seq<char>,
    extra_content: Seq<char>,
)
    requires
        topic.len() == TOPIC_MAX_LENGTH,
        content.len() == CONTENT_MAX_LENGTH,
        !blank(topic),
        !blank(content),
        extra_topic.len() == TOPIC_MAX_LENGTH + 1,
        extra_content.len() == CONTENT_MAX_LENGTH + 1,
    ensures
        send_result(None, topic, content) is Ok,
        send_result(None, extra_topic, content) == Err::<(), SendError>(
            SendError::Invalid(ErrorCode::TopicTooLong),
        ),
        send_result(None, topic, extra_content) == Err::<(), SendError>(
            SendError::Invalid(ErrorCode::ContentTooLong),
        ),
{
}

} // verus!
