//! The connection lifecycle of the monitor loop: a two-state machine that
//! attempts a connection at most once per cooldown while disconnected, polls
//! while connected, and demotes itself to disconnected on any read error.
//! The loop itself performs the reads and sleeps; every decision it takes is
//! a function here, from state and event to next state and action.

use vstd::prelude::*;

use crate::hid_monitor::is_trigger;
use crate::hid_monitor::matches_prefix;
use crate::hid_monitor::trigger_signature;

verus! {

/// How long the loop waits after a failed connection attempt or a read
/// error before it may try to connect again, in milliseconds.
pub const CONNECT_COOLDOWN_MS: u64 = 5000;

/// The bounded timeout of one device read, in milliseconds.
pub const READ_TIMEOUT_MS: u64 = 10;

/// The fixed sleep between two loop iterations, in milliseconds.
pub const LOOP_SLEEP_MS: u64 = 10;

/// Whether the loop currently owns an open device handle.
#[derive(Debug, Clone, Copy, PartialEq, Eq, Structural)]
pub enum ConnectionState {
    Disconnected,
    Connected,
}

/// What one bounded-timeout read of the device produced.
pub enum ReadEvent {
    /// `size` bytes arrived at the front of `buffer`.
    Data { buffer: Vec<u8>, size: usize },
    /// Nothing was pending; a zero-byte read is a normal outcome, not an
    /// error.
    Empty,
    /// The transport failed; the handle is no longer usable.
    Error,
}

/// The state the monitor loop carries between iterations.
pub struct MonitorState {
    pub connection: ConnectionState,
    /// Time of the last failed connection attempt or read error, in
    /// milliseconds; `None` when no cooldown is pending, so the first
    /// attempt may happen at once.
    pub last_attempt_ms: Option<u64>,
    pub cooldown_ms: u64,
}

impl MonitorState {
    /// True when the loop is disconnected and the reconnect cooldown has
    /// elapsed at time `now_ms`, so a connection attempt is due.
    pub open spec fn connect_due(self, now_ms: u64) -> bool {
        &&& self.connection is Disconnected
        &&& match self.last_attempt_ms {
            None => true,
            Some(t) => now_ms >= t + self.cooldown_ms,
        }
    }

    /// The initial state: disconnected, no cooldown pending.
    pub fn new() -> (r: MonitorState)
        ensures
            r.connection is Disconnected,
            r.last_attempt_ms is None,
            r.cooldown_ms == CONNECT_COOLDOWN_MS,
    {
        MonitorState {
            connection: ConnectionState::Disconnected,
            last_attempt_ms: None,
            cooldown_ms: CONNECT_COOLDOWN_MS,
        }
    }

    /// Whether the loop should try to connect in this iteration: only while
    /// disconnected, and at most once per cooldown window.
    pub fn should_attempt_connect(&self, now_ms: u64) -> (r: bool)
        ensures
            r == self.connect_due(now_ms),
    {
        match self.connection {
            ConnectionState::Connected => false,
            ConnectionState::Disconnected => match self.last_attempt_ms {
                None => true,
                Some(t) => now_ms >= t && now_ms - t >= self.cooldown_ms,
            },
        }
    }

    /// Records the outcome of one connection attempt: success makes the
    /// state connected; failure leaves it disconnected and restarts the
    /// cooldown at `now_ms`, deferring the next attempt by the full window.
    pub fn on_connect_outcome(&mut self, now_ms: u64, success: bool)
        requires
            old(self).connection is Disconnected,
        ensures
            final(self).cooldown_ms == old(self).cooldown_ms,
            success ==> final(self).connection is Connected && final(self).last_attempt_ms
                == old(self).last_attempt_ms,
            !success ==> final(self).connection is Disconnected && final(self).last_attempt_ms
                == Some(now_ms),
    {
        if success {
            self.connection = ConnectionState::Connected;
        } else {
            self.last_attempt_ms = Some(now_ms);
        }
    }

    /// Drives the state machine over the outcome of one read, and decides
    /// whether the trigger fired. A zero-byte read changes nothing and never
    /// dispatches; a read error demotes the state to disconnected and
    /// restarts the cooldown at `now_ms`; data keeps the connection and
    /// dispatches exactly when its leading bytes are the trigger signature.
    pub fn on_read_event(&mut self, now_ms: u64, event: &ReadEvent) -> (dispatch: bool)
        requires
            old(self).connection is Connected,
            event matches ReadEvent::Data { buffer, size } ==> size <= buffer@.len(),
        ensures
            event is Empty ==> *final(self) == *old(self) && !dispatch,
            event is Error ==> !dispatch && final(self).connection is Disconnected
                && final(self).last_attempt_ms == Some(now_ms)
                && final(self).cooldown_ms == old(self).cooldown_ms,
            event matches ReadEvent::Data { buffer, size } ==> *final(self) == *old(self)
                && dispatch == matches_prefix(
                    buffer@.subrange(0, size as int),
                    trigger_signature(),
                ),
    {
        match event {
            ReadEvent::Empty => false,
            ReadEvent::Error => {
                self.connection = ConnectionState::Disconnected;
                self.last_attempt_ms = Some(now_ms);
                false
            },
            ReadEvent::Data { buffer, size } => is_trigger(buffer.as_slice(), *size),
        }
    }
}

/// After a failed attempt or a read error at time `t0`, no connection
/// attempt is due anywhere in the cooldown window that starts there: the
/// next attempt never happens before the cooldown elapses, measured from the
/// error's timestamp.
pub proof fn lemma_reconnect_cooldown(s: MonitorState, t0: u64, t: u64)
    requires
        s.last_attempt_ms == Some(t0),
        t0 <= t < t0 + s.cooldown_ms,
    ensures
        !s.connect_due(t),
{
}

} // verus!
