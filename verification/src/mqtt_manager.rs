//! The broker-connection manager as a state machine: the shared
//! `connected` flag, the reconnect backoff counter, and the inbound
//! rate limiter.  The surrounding process owns the transport and
//! the clocks; it reports each event here and performs the returned
//! decision, so every transition is a verified function from state
//! and event to state and action.

use vstd::prelude::*;

verus! {

/// Poll failures back off for 1, 2, 4, 8 and 16 seconds on
/// attempts 0 through 4, then a flat 30 seconds.
pub const MAX_RETRIES: u32 = 5;

/// The flat delay in seconds once the backoff ladder is exhausted.
pub const LONG_RETRY_SECS: u64 = 30;

/// Two inbound messages closer together than this many
/// milliseconds: the second one is dropped.
pub const RATE_LIMIT_MS: u64 = 50;

/// What the polling loop must do after a transport-level poll
/// error.
#[derive(Debug, Clone, Copy, PartialEq, Eq, Structural)]
pub enum PollDecision {
    /// The disconnect was intentional: leave the loop at once,
    /// without a further delay.
    Exit,
    /// Sleep this many seconds, then poll again.
    RetryAfter(u64),
}

/// The connection manager's shared state: one per process,
/// constructed by the entry point and passed by reference.
#[derive(Debug, Clone, Copy, PartialEq, Eq, Structural)]
pub struct MqttManager {
    /// The single source of truth for "should the retry loop
    /// continue"; flipped by `begin_connect` and `disconnect`.
    pub connected: bool,
    /// Consecutive poll failures since the last success, saturated
    /// at `MAX_RETRIES`.
    pub retry_count: u32,
    /// Whether any inbound message has been accepted yet.
    pub has_accepted: bool,
    /// Monotonic timestamp in milliseconds of the last accepted
    /// inbound message; meaningful only once `has_accepted` holds.
    pub last_accepted_ms: u64,
}

/// The backoff delay in seconds for the given consecutive failure
/// count: 1, 2, 4, 8, 16, then a flat 30.
pub open spec fn spec_backoff_delay(retry_count: u32) -> u64 {
    if retry_count < MAX_RETRIES {
        1u64 << retry_count
    } else {
        LONG_RETRY_SECS
    }
}

/// Whether the rate limiter lets a message through at the given
/// monotonic time: always for the first message, afterwards only
/// when the limit interval has fully elapsed since the last
/// accepted one.
pub open spec fn spec_accepts(m: MqttManager, now_ms: u64) -> bool {
    !m.has_accepted || now_ms >= m.last_accepted_ms + RATE_LIMIT_MS
}

/// The manager state after one poll error: unchanged when the
/// disconnect was intentional, otherwise the failure count steps
/// up to its saturation point.
pub open spec fn spec_poll_error_step(m: MqttManager) -> MqttManager {
    if !m.connected {
        m
    } else if m.retry_count < MAX_RETRIES {
        MqttManager { retry_count: (m.retry_count + 1) as u32, ..m }
    } else {
        m
    }
}

/// The delays that a run of `n` consecutive poll errors produces
/// from the given state.
pub open spec fn spec_failure_delays(m: MqttManager, n: nat) -> Seq<u64>
    decreases n,
{
    if n == 0 {
        seq![]
    } else {
        seq![spec_backoff_delay(m.retry_count)] + spec_failure_delays(
            spec_poll_error_step(m),
            (n - 1) as nat,
        )
    }
}

impl MqttManager {
    /// A fresh manager: disconnected, no failures, limiter open.
    pub fn new() -> (r: Self)
        ensures
            !r.connected,
            r.retry_count == 0,
            !r.has_accepted,
    {
        MqttManager { connected: false, retry_count: 0, has_accepted: false, last_accepted_ms: 0 }
    }

    /// Mark the connection live and start a fresh failure count;
    /// called once the transport and its polling task stand.
    /// Re-invoking while connected is the idempotent replacement of
    /// the live client.
    pub fn begin_connect(&mut self)
        ensures
            *final(self) == (MqttManager { connected: true, retry_count: 0, ..*old(self) }),
    {
        self.connected = true;
        self.retry_count = 0;
    }

    /// Flip the flag that tells the polling task to exit.  Always
    /// succeeds, whether or not a client was present; tearing down
    /// the transport is the caller's best-effort work.
    pub fn disconnect(&mut self)
        ensures
            *final(self) == (MqttManager { connected: false, ..*old(self) }),
    {
        self.connected = false;
    }

    /// The current flag value; no side effects.
    pub fn is_connected(&self) -> (r: bool)
        ensures
            r == self.connected,
    {
        self.connected
    }

    /// A successful poll resets the backoff ladder.
    pub fn on_poll_success(&mut self)
        ensures
            *final(self) == (MqttManager { retry_count: 0, ..*old(self) }),
    {
        self.retry_count = 0;
    }

    /// Decide what the polling loop does about a transport error:
    /// exit at once after an intentional disconnect, otherwise
    /// retry after the backoff delay for the current failure count.
    pub fn on_poll_error(&mut self) -> (r: PollDecision)
        ensures
            *final(self) == spec_poll_error_step(*old(self)),
            !old(self).connected ==> r == PollDecision::Exit,
            old(self).connected ==> r == PollDecision::RetryAfter(
                spec_backoff_delay(old(self).retry_count),
            ),
    {
        if !self.connected {
            PollDecision::Exit
        } else {
            let delay: u64 = if self.retry_count < MAX_RETRIES {
                1u64 << self.retry_count
            } else {
                LONG_RETRY_SECS
            };
            if self.retry_count < MAX_RETRIES {
                self.retry_count = self.retry_count + 1;
            }
            PollDecision::RetryAfter(delay)
        }
    }

    /// The rate limiter, check and update in one atomic step:
    /// the message at the given monotonic time is accepted if and
    /// only if the limiter admits it, and only an accepted message
    /// moves the limiter's timestamp.
    pub fn accept_message(&mut self, now_ms: u64) -> (r: bool)
        ensures
            r == spec_accepts(*old(self), now_ms),
            r ==> *final(self) == (MqttManager {
                has_accepted: true,
                last_accepted_ms: now_ms,
                ..*old(self)
            }),
            !r ==> *final(self) == *old(self),
    {
        if !self.has_accepted || (now_ms >= self.last_accepted_ms && now_ms
            - self.last_accepted_ms >= RATE_LIMIT_MS) {
            self.has_accepted = true;
            self.last_accepted_ms = now_ms;
            true
        } else {
            false
        }
    }
}

/// The rate-limit law: once a message has been accepted at one
/// instant, a second message strictly inside the limit interval is
/// dropped, and one at or past the interval's end is accepted.
pub proof fn lemma_rate_limit_pair(m: MqttManager, t1: u64, t2: u64)
    requires
        spec_accepts(m, t1),
    ensures
        t2 < t1 + RATE_LIMIT_MS ==> !spec_accepts(
            MqttManager { has_accepted: true, last_accepted_ms: t1, ..m },
            t2,
        ),
        t2 >= t1 + RATE_LIMIT_MS ==> spec_accepts(
            MqttManager { has_accepted: true, last_accepted_ms: t1, ..m },
            t2,
        ),
{
}

/// The backoff law: counting from a fresh connection, consecutive
/// poll failures are answered with delays of 1, 2, 4, 8 and 16
/// seconds, then a flat 30 seconds for every further failure, for
/// as long as no poll succeeds.
pub proof fn lemma_backoff_schedule(m: MqttManager, n: nat)
    requires
        m.connected,
        m.retry_count == 0,
    ensures
        spec_failure_delays(m, n) == Seq::new(
            n,
            |i: int|
                if i < MAX_RETRIES {
                    spec_backoff_delay(i as u32)
                } else {
                    LONG_RETRY_SECS
                },
        ),
{
    lemma_failure_delays_from(m, n);
    assert(spec_failure_delays(m, n) =~= Seq::new(
        n,
        |i: int|
            if i < MAX_RETRIES {
                spec_backoff_delay(i as u32)
            } else {
                LONG_RETRY_SECS
            },
    ));
}

/// Helper for the backoff law: the delays seen from any connected
/// state continue the ladder from its current failure count.
proof fn lemma_failure_delays_from(m: MqttManager, n: nat)
    requires
        m.connected,
    ensures
        spec_failure_delays(m, n) == Seq::new(
            n,
            |i: int|
                if m.retry_count + i < MAX_RETRIES {
                    spec_backoff_delay((m.retry_count + i) as u32)
                } else {
                    LONG_RETRY_SECS
                },
        ),
    decreases n,
{
    let target = Seq::new(
        n,
        |i: int|
            if m.retry_count + i < MAX_RETRIES {
                spec_backoff_delay((m.retry_count + i) as u32)
            } else {
                LONG_RETRY_SECS
            },
    );
    if n == 0 {
        assert(spec_failure_delays(m, n) =~= target);
    } else {
        let m2 = spec_poll_error_step(m);
        lemma_failure_delays_from(m2, (n - 1) as nat);
        assert(spec_failure_delays(m, n) =~= target);
    }
}

} // verus!
