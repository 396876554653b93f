//! The request lifecycle and the poll cadence.
//!
//! Exactly one background exchange may be outstanding: a send moves the
//! lifecycle from idle to sending, its outcome settles it, and folding the
//! settled outcome into the log returns it to idle. A new send is rejected
//! anywhere but idle. Polling is gated on being idle and on a minimum
//! interval since the last poll, and advances a watermark: the highest
//! message timestamp known locally.

use vstd::prelude::*;

verus! {

/// Minimum interval between two server polls, in milliseconds.
pub const POLL_INTERVAL_MS: u64 = 2000;

/// What the status line reports of the connection.
#[derive(Clone, Copy, PartialEq, Eq, Structural, Debug)]
pub enum ConnectionStatus {
    Connected,
    Sending,
    Error,
}

/// Where the single outstanding exchange stands. A settled outcome carries
/// the response text or a human-readable failure reason.
pub enum RequestLifecycle {
    Idle,
    Sending,
    Settled(Result<String, String>),
}

pub struct SessionController {
    pub lifecycle: RequestLifecycle,
    /// When the server was last polled, in epoch milliseconds.
    pub last_poll_ms: u64,
    /// The highest message timestamp known locally: the lower bound of the
    /// next poll.
    pub watermark: u64,
}

impl SessionController {
    /// A controller that is idle, saw its last poll `now`, and knows
    /// messages up to `watermark`.
    pub fn new(now: u64, watermark: u64) -> (s: SessionController)
        ensures
            s.lifecycle is Idle,
            s.last_poll_ms == now,
            s.watermark == watermark,
    {
        SessionController { lifecycle: RequestLifecycle::Idle, last_poll_ms: now, watermark }
    }

    /// Whether no exchange is outstanding or settled.
    pub fn is_idle(&self) -> (r: bool)
        ensures
            r == (self.lifecycle is Idle),
    {
        match self.lifecycle {
            RequestLifecycle::Idle => true,
            _ => false,
        }
    }

    /// Whether an exchange is outstanding.
    pub fn is_sending(&self) -> (r: bool)
        ensures
            r == (self.lifecycle is Sending),
    {
        match self.lifecycle {
            RequestLifecycle::Sending => true,
            _ => false,
        }
    }

    /// Launch the single outstanding exchange.
    pub fn begin_send(&mut self)
        requires
            old(self).lifecycle is Idle,
        ensures
            final(self).lifecycle is Sending,
            final(self).last_poll_ms == old(self).last_poll_ms,
            final(self).watermark == old(self).watermark,
    {
        self.lifecycle = RequestLifecycle::Sending;
    }

    /// Record the outstanding exchange's outcome.
    pub fn settle(&mut self, outcome: Result<String, String>)
        requires
            old(self).lifecycle is Sending,
        ensures
            final(self).lifecycle == RequestLifecycle::Settled(outcome),
            final(self).last_poll_ms == old(self).last_poll_ms,
            final(self).watermark == old(self).watermark,
    {
        self.lifecycle = RequestLifecycle::Settled(outcome);
    }

    /// Take the settled outcome, returning to idle.
    pub fn take_settled(&mut self) -> (r: Result<String, String>)
        requires
            old(self).lifecycle is Settled,
        ensures
            final(self).lifecycle is Idle,
            old(self).lifecycle matches RequestLifecycle::Settled(out) ==> r == out,
            final(self).last_poll_ms == old(self).last_poll_ms,
            final(self).watermark == old(self).watermark,
    {
        let out: Result<String, String> = match &self.lifecycle {
            RequestLifecycle::Settled(Ok(s)) => Ok(s.clone()),
            RequestLifecycle::Settled(Err(e)) => Err(e.clone()),
            _ => vstd::pervasive::unreached(),
        };
        self.lifecycle = RequestLifecycle::Idle;
        out
    }

    /// Whether a poll is due: only when idle, and only after the minimum
    /// interval has elapsed since the last poll.
    pub fn should_poll(&self, now: u64) -> (r: bool)
        ensures
            r == (self.lifecycle is Idle && now >= self.last_poll_ms + POLL_INTERVAL_MS),
    {
        self.is_idle() && now >= self.last_poll_ms && now - self.last_poll_ms >= POLL_INTERVAL_MS
    }

    /// Start a poll now: remember the time and hand out the watermark to
    /// query strictly above.
    pub fn begin_poll(&mut self, now: u64) -> (since: u64)
        ensures
            final(self).last_poll_ms == now,
            since == old(self).watermark,
            final(self).lifecycle == old(self).lifecycle,
            final(self).watermark == old(self).watermark,
    {
        self.last_poll_ms = now;
        self.watermark
    }

    /// Record the watermark a poll ingestion returned.
    pub fn record_watermark(&mut self, watermark: u64)
        ensures
            final(self).watermark == watermark,
            final(self).lifecycle == old(self).lifecycle,
            final(self).last_poll_ms == old(self).last_poll_ms,
    {
        self.watermark = watermark;
    }
}

} // verus!
