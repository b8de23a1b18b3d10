//! Decisions of the order gateway and the tick ingestor. Each background loop
//! performs one exchange or receive, hands its outcome here, and acts on what
//! comes back; no failure ends a loop.

use vstd::prelude::*;
use vstd::string::*;
use crate::model::{Snapshot, WireReply};

verus! {

/// Pause before the ingestor retries after a transport failure.
pub const RETRY_BACKOFF_MS: u64 = 1000;

/// Outcome of one strict send-then-receive exchange of a command.
pub enum Exchange {
    EncodeFailed(String),
    SendFailed(String),
    RecvFailed(String),
    DecodeFailed(String),
    Replied(WireReply),
}

/// The cause prefix of the synthetic reply for a failed exchange.
pub open spec fn failure_prefix(x: Exchange) -> Seq<char> {
    match x {
        Exchange::EncodeFailed(_) => "Encode failed: "@,
        Exchange::SendFailed(_) => "Send failed: "@,
        Exchange::RecvFailed(_) => "Recv failed: "@,
        Exchange::DecodeFailed(_) => "Parse error: "@,
        Exchange::Replied(_) => Seq::empty(),
    }
}

fn failure(prefix: &str, cause: String) -> (r: WireReply)
    ensures
        !r.success,
        r.ticket is None,
        r.message is None,
        r.error is Some,
        r.error->Some_0@ == prefix@ + cause@,
{
    let mut text = String::from_str(prefix);
    text.append(cause.as_str());
    WireReply { success: false, ticket: None, error: Some(text), message: None }
}

/// The reply to forward for one exchange: the server's own reply, or a
/// failure whose error names the failed stage and its cause.
pub fn exchange_reply(x: Exchange) -> (r: WireReply)
    ensures
        match x {
            Exchange::Replied(w) => r == w,
            Exchange::EncodeFailed(e) | Exchange::SendFailed(e) | Exchange::RecvFailed(e)
            | Exchange::DecodeFailed(e) => {
                &&& !r.success
                &&& r.ticket is None
                &&& r.message is None
                &&& r.error is Some
                &&& r.error->Some_0@ == failure_prefix(x) + e@
            },
        },
{
    match x {
        Exchange::Replied(w) => w,
        Exchange::EncodeFailed(e) => failure("Encode failed: ", e),
        Exchange::SendFailed(e) => failure("Send failed: ", e),
        Exchange::RecvFailed(e) => failure("Recv failed: ", e),
        Exchange::DecodeFailed(e) => failure("Parse error: ", e),
    }
}

/// Outcome of one receive on the market-data subscription.
pub enum FeedEvent {
    Decoded(Snapshot),
    Malformed(String),
    TransportError(String),
}

/// What the ingestor does next.
pub enum FeedAction {
    /// Queue the snapshot for the bridge.
    Forward(Snapshot),
    /// Drop the message and receive the next one.
    Skip,
    /// Sleep this many milliseconds, then receive again.
    Backoff(u64),
}

/// The ingestor's decision: forward what decoded, skip what did not, back off
/// after a transport failure.
pub fn feed_step(e: FeedEvent) -> (a: FeedAction)
    ensures
        match e {
            FeedEvent::Decoded(s) => a == FeedAction::Forward(s),
            FeedEvent::Malformed(_) => a == FeedAction::Skip,
            FeedEvent::TransportError(_) => a == FeedAction::Backoff(RETRY_BACKOFF_MS),
        },
{
    match e {
        FeedEvent::Decoded(s) => FeedAction::Forward(s),
        FeedEvent::Malformed(_) => FeedAction::Skip,
        FeedEvent::TransportError(_) => FeedAction::Backoff(RETRY_BACKOFF_MS),
    }
}

} // verus!
