//! The tweet record and the instruction that fills a fresh record slot.
use vstd::prelude::*;

use anchor_lang::prelude::{Clock, ProgramError, Pubkey, SolanaSysvar};

use crate::rules::{tweet_error, validate_tweet, ErrorCode};

verus! {

/// An account's public key, carried through unread.
#[verifier::external_type_specification]
#[verifier::external_body]
pub struct ExPubkey(Pubkey);

/// The host's error for a failed runtime request.
#[verifier::external_type_specification]
#[verifier::external_body]
pub struct ExProgramError(ProgramError);

/// Relies on `Clock::get` (the host's clock sysvar): its `unix_timestamp`, or
/// the error the host gave. Nothing is promised of the value.
#[verifier::external_body]
fn clock_unix_timestamp() -> (r: Result<i64, ProgramError>) {
    <Clock as SolanaSysvar>::get().map(|clock| clock.unix_timestamp)
}

/// One stored post.
pub struct Tweet {
    /// The signer who created the record.
    pub authority: Pubkey,
    /// Seconds since the epoch at creation, from the host clock.
    pub timestamp: i64,
    /// The topic, as given.
    pub topic: String,
    /// The content, as given.
    pub content: String,
}

/// What a record holds, with its texts as character sequences.
pub ghost struct TweetView {
    pub authority: Pubkey,
    pub timestamp: i64,
    pub topic: Seq<char>,
    pub content: Seq<char>,
}

impl View for Tweet {
    type V = TweetView;

    open spec fn view(&self) -> TweetView {
        TweetView {
            authority: self.authority,
            timestamp: self.timestamp,
            topic: self.topic@,
            content: self.content@,
        }
    }
}

impl TweetView {
    /// Both texts keep the rules.
    pub open spec fn wf(self) -> bool {
        tweet_error(self.topic, self.content) is None
    }
}

impl Tweet {
    /// Both texts keep the rules.
    pub open spec fn wf(&self) -> bool {
        self@.wf()
    }
}

/// A record slot as the host hands it over: `None` while fresh, `Some` once it
/// holds a record.
pub open spec fn slot_view(slot: &Option<Tweet>) -> Option<TweetView> {
    match slot {
        Some(t) => Some(t@),
        None => None,
    }
}

/// Why a tweet was not recorded.
#[derive(Debug)]
pub enum SendError {
    /// The texts broke a rule.
    Invalid(ErrorCode),
    /// The slot already holds a record; records are never overwritten.
    AlreadyInitialized,
    /// The host clock could not be read.
    ClockUnavailable(ProgramError),
}

/// What a call on `slot` with these texts returns once it has a timestamp: a
/// slot in use is refused first, then the first rule broken.
pub open spec fn send_result(slot: Option<TweetView>, topic: Seq<char>, content: Seq<char>) -> Result<
    (),
    SendError,
> {
    if slot is Some {
        Err(SendError::AlreadyInitialized)
    } else {
        match tweet_error(topic, content) {
            Some(e) => Err(SendError::Invalid(e)),
            None => Ok(()),
        }
    }
}

/// The slot after such a call: the new record where it succeeds, the slot as
/// it was where it fails.
pub open spec fn slot_after(
    slot: Option<TweetView>,
    authority: Pubkey,
    timestamp: i64,
    topic: Seq<char>,
    content: Seq<char>,
) -> Option<TweetView> {
    if send_result(slot, topic, content) is Ok {
        Some(TweetView { authority, timestamp, topic, content })
    } else {
        slot
    }
}

/// Fills a fresh slot with a record of `authority`, `timestamp` and the two
/// texts as given, once they keep the rules.
pub fn populate_tweet(
    slot: &mut Option<Tweet>,
    authority: Pubkey,
    timestamp: i64,
    topic: String,
    content: String,
) -> (r: Result<(), SendError>)
    ensures
        r == send_result(slot_view(old(slot)), topic@, content@),
        slot_view(final(slot)) == slot_after(
            slot_view(old(slot)),
            authority,
            timestamp,
            topic@,
            content@,
        ),
        r is Ok ==> (*final(slot) matches Some(t) && t.wf()),
{
    if slot.is_some() {
        return Err(SendError::AlreadyInitialized);
    }
    match validate_tweet(topic.as_str(), content.as_str()) {
        Err(e) => Err(SendError::Invalid(e)),
        Ok(()) => {
            *slot = Some(Tweet { authority, timestamp, topic, content });
            Ok(())
        },
    }
}

/// Records a tweet in a fresh slot, stamped with the host clock. The slot and
/// the texts are checked before the clock is read; where the clock cannot be
/// read the slot is left as it was.
pub fn send_tweet(slot: &mut Option<Tweet>, authority: Pubkey, topic: String, content: String) -> (r:
    Result<(), SendError>)
    ensures
        send_result(slot_view(old(slot)), topic@, content@) is Err ==> r == send_result(
            slot_view(old(slot)),
            topic@,
            content@,
        ) && slot_view(final(slot)) == slot_view(old(slot)),
        send_result(slot_view(old(slot)), topic@, content@) is Ok ==> match r {
            Ok(()) => exists|t: i64|
                slot_view(final(slot)) == slot_after(
                    slot_view(old(slot)),
                    authority,
                    t,
                    topic@,
                    content@,
                ),
            Err(e) => e is ClockUnavailable && slot_view(final(slot)) == slot_view(old(slot)),
        },
        r is Ok ==> (*final(slot) matches Some(t) && t.wf()),
{
    if slot.is_some() {
        return Err(SendError::AlreadyInitialized);
    }
    if let Err(e) = validate_tweet(topic.as_str(), content.as_str()) {
        return Err(SendError::Invalid(e));
    }
    match clock_unix_timestamp() {
        Err(e) => Err(SendError::ClockUnavailable(e)),
        Ok(timestamp) => populate_tweet(slot, authority, timestamp, topic, content),
    }
}

} // verus!
