//! Waiting for the local control server to answer.
//!
//! The server is polled until it answers with status 200 or the patience
//! runs out. Nothing here sends a request or sleeps: these functions say
//! what to do next.

use vstd::prelude::*;
use crate::text::{decimal_text, push_decimal};

verus! {

/// The status with which a server that is ready answers.
pub const READY_STATUS: u16 = 200;

/// Milliseconds after which a single request is given up.
pub const REQUEST_TIMEOUT_MILLIS: u64 = 500;

/// Milliseconds to sleep after a request that did not find the server
/// ready.
pub const RETRY_DELAY_MILLIS: u64 = 100;

/// The address that is polled on the server on `port`.
pub open spec fn ping_url_text(port: u16) -> Seq<char> {
    "http://127.0.0.1:"@ + decimal_text(port as nat) + "/ping"@
}

/// The address that is polled on the server on `port`.
pub fn ping_url(port: u16) -> (url: String)
    ensures
        url@ == ping_url_text(port),
{
    let mut url = "http://127.0.0.1:".to_owned();
    push_decimal(&mut url, port as u64);
    url.push_str("/ping");
    url
}

/// What is reported when the patience of `timeout_secs` seconds has run
/// out.
pub open spec fn timeout_text(timeout_secs: u64) -> Seq<char> {
    "Server failed to become ready within "@ + decimal_text(timeout_secs as nat) + " seconds"@
}

/// What is reported when the patience of `timeout_secs` seconds has run
/// out.
pub fn timeout_message(timeout_secs: u64) -> (message: String)
    ensures
        message@ == timeout_text(timeout_secs),
{
    let mut message = "Server failed to become ready within ".to_owned();
    push_decimal(&mut message, timeout_secs);
    message.push_str(" seconds");
    message
}

/// What the poller does next.
#[derive(Clone, Copy, Debug, PartialEq, Eq)]
pub enum PollStep {
    /// Send a request, giving it up after this many milliseconds.
    Request(u64),
    /// The server is ready.
    Ready,
    /// Sleep for this many milliseconds, then look at the clock again.
    Retry(u64),
    /// The patience has run out.
    GiveUp,
}

/// Whether there is time left for another request: fewer than
/// `timeout_secs` seconds have passed.
pub open spec fn in_time(elapsed_millis: u64, timeout_secs: u64) -> bool {
    elapsed_millis < timeout_secs * 1000
}

/// What to do before a request, `elapsed_millis` after the wait began.
pub fn before_request(elapsed_millis: u64, timeout_secs: u64) -> (step: PollStep)
    ensures
        step == if in_time(elapsed_millis, timeout_secs) {
            PollStep::Request(REQUEST_TIMEOUT_MILLIS)
        } else {
            PollStep::GiveUp
        },
{
    if elapsed_millis / 1000 < timeout_secs {
        PollStep::Request(REQUEST_TIMEOUT_MILLIS)
    } else {
        PollStep::GiveUp
    }
}

/// What to do after a request. `status` is the status of the answer, or
/// `None` when the request failed.
pub fn after_response(status: Option<u16>) -> (step: PollStep)
    ensures
        step == if status == Some(READY_STATUS) {
            PollStep::Ready
        } else {
            PollStep::Retry(RETRY_DELAY_MILLIS)
        },
{
    match status {
        Some(code) => {
            if code == READY_STATUS {
                PollStep::Ready
            } else {
                PollStep::Retry(RETRY_DELAY_MILLIS)
            }
        },
        None => PollStep::Retry(RETRY_DELAY_MILLIS),
    }
}

} // verus!
