//! `POST /api/v1/notifications/test`: a fixed test message to every
//! channel, at most once a minute.
use vstd::prelude::*;
use crate::error::AppError;
use crate::notifications::event::NotificationEvent;
use crate::state::NOTIFY_TEST_MIN_INTERVAL_SECS;
use crate::text::{int_text, owned, push_int, push_str};

verus! {

/// The fixed text of a test notification: callers cannot choose what is
/// broadcast.
pub const TEST_MESSAGE: &'static str = "Hello from Showrunner.";

pub struct ChannelResult {
    pub channel: String,
    pub ok: bool,
    pub error: Option<String>,
}

pub struct TestResponse {
    pub results: Vec<ChannelResult>,
}

/// The test event.
pub fn test_event() -> (r: NotificationEvent)
    ensures
        r matches NotificationEvent::Test { message } && message@ == TEST_MESSAGE@,
{
    NotificationEvent::Test { message: owned(TEST_MESSAGE) }
}

/// `out` reports the outcome `res` of sending on `channel`; an error is
/// reported by its client-safe message.
pub open spec fn reports(out: ChannelResult, channel: Seq<char>, res: Result<(), AppError>) -> bool {
    &&& out.channel@ == channel
    &&& out.ok == (res is Ok)
    &&& match res {
        Ok(_) => out.error is None,
        Err(e) => out.error matches Some(m) && m@ == e.spec_client_message(),
    }
}

/// The per-channel results of a test dispatch, in channel order.
pub fn channel_results(dispatched: Vec<(String, Result<(), AppError>)>) -> (r: Vec<ChannelResult>)
    ensures
        r@.len() == dispatched@.len(),
        forall|i: int|
            0 <= i < r@.len() ==> reports(
                #[trigger] r@[i],
                dispatched@[i].0@,
                dispatched@[i].1,
            ),
{
    let mut out: Vec<ChannelResult> = Vec::new();
    let mut i: usize = 0;
    while i < dispatched.len()
        invariant
            0 <= i <= dispatched@.len(),
            out@.len() == i,
            forall|k: int|
                0 <= k < i ==> reports(#[trigger] out@[k], dispatched@[k].0@, dispatched@[k].1),
        decreases dispatched@.len() - i,
    {
        let (channel, res) = &dispatched[i];
        let error = match res {
            Ok(()) => None,
            Err(e) => Some(e.client_message()),
        };
        out.push(ChannelResult { channel: channel.clone(), ok: res.is_ok(), error });
        i = i + 1;
    }
    out
}

/// The refusal of a test sent too soon after the last one.
pub fn test_too_soon() -> (e: AppError)
    ensures
        e matches AppError::TooManyRequests(m) && m@ == "a test notification was sent less than "@
            + int_text(NOTIFY_TEST_MIN_INTERVAL_SECS as int) + "s ago; try again shortly"@,
{
    let mut m = owned("a test notification was sent less than ");
    push_int(&mut m, NOTIFY_TEST_MIN_INTERVAL_SECS as i64);
    push_str(&mut m, "s ago; try again shortly");
    AppError::TooManyRequests(m)
}

} // verus!
