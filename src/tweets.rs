use crate::clock::ledger_clock;
use crate::identity::Identity;
use vstd::prelude::*;
use vstd::string::StrSliceExecFns;

verus! {

pub const DISCRIMINATOR_LENGTH: usize = 8;
pub const PUBLIC_KEY_LENGTH: usize = 32;
pub const TIMESTAMP_LENGTH: usize = 8;
pub const STRING_LENGTH_PREFIX: usize = 4;
/// At most 280 characters of at most 4 bytes each.
pub const MAX_CONTENT_LENGTH: usize = 280 * 4;
/// The largest number of characters a post may hold.
pub const MAX_CONTENT_CHARS: usize = 280;

/// Why a post was refused.
#[derive(Clone, Copy, Debug, PartialEq, Eq, Structural)]
pub enum ErrorCode {
    ContentTooLong,
    ClockUnavailable,
}

impl ErrorCode {
    pub open spec fn spec_message(&self) -> Seq<char> {
        match self {
            ErrorCode::ContentTooLong => "The provided content should be 280 characters long maximum."@,
            ErrorCode::ClockUnavailable => "The ledger clock is unavailable."@,
        }
    }

    /// The message shown for this error.
    pub fn message(&self) -> (r: &'static str)
        ensures
            r@ == self.spec_message(),
    {
        match self {
            ErrorCode::ContentTooLong => "The provided content should be 280 characters long maximum.",
            ErrorCode::ClockUnavailable => "The ledger clock is unavailable.",
        }
    }
}

/// The accounts of an initialization, which takes none.
#[derive(Clone, Copy, Debug)]
pub struct Initialize {}

/// A post: its author, when it was sent, and its text.
#[derive(Clone, Debug)]
pub struct Tweet {
    pub author: Identity,
    pub timestamp: i64,
    pub content: String,
}

impl Tweet {
    /// Stored size: type tag, author, timestamp, length prefix, content.
    pub const LEN: usize = DISCRIMINATOR_LENGTH + PUBLIC_KEY_LENGTH + TIMESTAMP_LENGTH
        + STRING_LENGTH_PREFIX + MAX_CONTENT_LENGTH;
}

/// The accounts of one post: the account the post is written to, and its
/// author, who signs.
#[derive(Clone, Debug)]
pub struct SendTweet {
    pub tweet: Tweet,
    pub author: Identity,
}

/// The refusal that a post of `content` at clock value `now` meets, if any.
pub open spec fn tweet_refusal(content: Seq<char>, now: Option<i64>) -> Option<ErrorCode> {
    if content.len() > 280 {
        Some(ErrorCode::ContentTooLong)
    } else if now is None {
        Some(ErrorCode::ClockUnavailable)
    } else {
        None
    }
}

/// What a call of `send_tweet` does: from `ctx` to `ctx2`, with result `r`.
pub open spec fn tweet_outcome(
    ctx: SendTweet,
    ctx2: SendTweet,
    content: Seq<char>,
    now: Option<i64>,
    r: Result<(), ErrorCode>,
) -> bool {
    match r {
        Err(e) => tweet_refusal(content, now) == Some(e) && ctx2 == ctx,
        Ok(()) => {
            &&& tweet_refusal(content, now) is None
            &&& ctx2.author == ctx.author
            &&& ctx2.tweet.author == ctx.author
            &&& ctx2.tweet.timestamp == now->Some_0
            &&& ctx2.tweet.content@ == content
        },
    }
}

/// Writes a post of at most 280 characters by `ctx.author`, timestamped
/// `now` (the ledger's clock), into `ctx.tweet`.
pub fn send_tweet(ctx: &mut SendTweet, content: String, now: Option<i64>) -> (r: Result<
    (),
    ErrorCode,
>)
    ensures
        tweet_outcome(*old(ctx), *final(ctx), content@, now, r),
{
    if content.as_str().unicode_len() > MAX_CONTENT_CHARS {
        return Err(ErrorCode::ContentTooLong);
    }
    let timestamp = match now {
        Some(t) => t,
        None => return Err(ErrorCode::ClockUnavailable),
    };
    ctx.tweet.author = ctx.author;
    ctx.tweet.timestamp = timestamp;
    ctx.tweet.content = content;
    Ok(())
}

/// `send_tweet` with the timestamp read from the ledger runtime's clock.
pub fn send_tweet_now(ctx: &mut SendTweet, content: String) -> (r: Result<(), ErrorCode>)
    ensures
        exists|now: Option<i64>| #[trigger] tweet_outcome(*old(ctx), *final(ctx), content@, now, r),
{
    let ghost c = content@;
    let now = ledger_clock();
    let r = send_tweet(ctx, content, now);
    assert(tweet_outcome(*old(ctx), *ctx, c, now, r));
    r
}

} // verus!
