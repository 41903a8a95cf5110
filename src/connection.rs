//! Decisions of the connection to the presence display: its lifecycle,
//! the retry schedule, and the payload of each update. The caller performs
//! the socket work each decision names and reports how it went.
use vstd::prelude::*;
use crate::config::opt_view;
use crate::error::PresenceError;

verus! {

/// Attempts made by one connect-with-retry run.
pub const MAX_CONNECT_ATTEMPTS: u32 = 5;

/// Wait after the first failed attempt, in milliseconds.
pub const INITIAL_RETRY_DELAY_MS: u64 = 500;

/// Longest wait between attempts, in milliseconds.
pub const MAX_RETRY_DELAY_MS: u64 = 10000;

/// Label of the button that links to the repository.
pub const REPOSITORY_BUTTON_LABEL: &'static str = "View Repository";

/// `2^n`.
pub open spec fn pow2(n: nat) -> nat
    decreases n,
{
    if n == 0 {
        1
    } else {
        2 * pow2((n - 1) as nat)
    }
}

/// The wait after failed attempt `attempt` (counted from zero): the initial
/// delay doubled once per earlier failure, capped.
pub open spec fn retry_delay(attempt: nat) -> nat {
    let d = INITIAL_RETRY_DELAY_MS as nat * pow2(attempt);
    if d < MAX_RETRY_DELAY_MS as nat {
        d
    } else {
        MAX_RETRY_DELAY_MS as nat
    }
}

/// The wait in milliseconds after failed attempt `attempt`, counted from zero.
pub fn retry_delay_ms(attempt: u32) -> (r: u64)
    ensures
        r == retry_delay(attempt as nat),
{
    let mut d: u64 = INITIAL_RETRY_DELAY_MS;
    let mut i: u32 = 0;
    while i < attempt
        invariant
            0 <= i <= attempt,
            d == retry_delay(i as nat),
        decreases attempt - i,
    {
        proof {
            assert(pow2((i + 1) as nat) == 2 * pow2(i as nat));
        }
        d = if d * 2 < MAX_RETRY_DELAY_MS {
            d * 2
        } else {
            MAX_RETRY_DELAY_MS
        };
        i = i + 1;
    }
    d
}

/// The waits after each of `attempts` failed attempts, in order.
pub fn retry_delays(attempts: u32) -> (r: Vec<u64>)
    ensures
        r@.len() == attempts,
        forall|i: int| 0 <= i < attempts ==> r@[i] == retry_delay(i as nat),
{
    let mut out: Vec<u64> = Vec::new();
    let mut i: u32 = 0;
    while i < attempts
        invariant
            0 <= i <= attempts,
            out@.len() == i,
            forall|k: int| 0 <= k < i ==> out@[k] == retry_delay(k as nat),
        decreases attempts - i,
    {
        out.push(retry_delay_ms(i));
        i = i + 1;
    }
    out
}

/// What to do after connect attempt `attempt` (counted from zero) failed.
#[derive(Debug, Clone, Copy, PartialEq, Eq, Structural)]
pub enum RetryStep {
    /// Wait this many milliseconds, then try again.
    Wait(u64),
    /// No attempts are left: report the failure.
    GiveUp,
}

/// After a failed attempt, wait and retry while attempts are left.
pub fn after_failed_attempt(attempt: u32) -> (r: RetryStep)
    ensures
        attempt + 1 < MAX_CONNECT_ATTEMPTS ==> r == RetryStep::Wait(
            retry_delay(attempt as nat) as u64,
        ),
        attempt + 1 >= MAX_CONNECT_ATTEMPTS ==> r == RetryStep::GiveUp,
{
    if attempt < MAX_CONNECT_ATTEMPTS - 1 {
        RetryStep::Wait(retry_delay_ms(attempt))
    } else {
        RetryStep::GiveUp
    }
}

/// Where the connection stands.
#[derive(Debug, Clone, Copy, PartialEq, Eq, Structural)]
pub enum ConnectionState {
    /// No client exists yet.
    Uninitialized,
    /// A client exists and has not connected.
    Created,
    Connected,
    /// The last connect or send failed; the next update reconnects.
    Disconnected,
    /// The connection was closed on purpose.
    Closed,
}

/// What the caller reports back.
#[derive(Debug, Clone, Copy, PartialEq, Eq, Structural)]
pub enum ConnectionEvent {
    ClientCreated,
    ConnectSucceeded,
    ConnectFailed,
    SendSucceeded,
    SendFailed,
    CloseDone,
}

/// The state after an event.
pub open spec fn next_state(s: ConnectionState, e: ConnectionEvent) -> ConnectionState {
    match e {
        ConnectionEvent::ClientCreated => ConnectionState::Created,
        ConnectionEvent::ConnectSucceeded => if s == ConnectionState::Uninitialized {
            s
        } else {
            ConnectionState::Connected
        },
        ConnectionEvent::ConnectFailed => if s == ConnectionState::Uninitialized {
            s
        } else {
            ConnectionState::Disconnected
        },
        ConnectionEvent::SendSucceeded => s,
        ConnectionEvent::SendFailed => if s == ConnectionState::Uninitialized {
            s
        } else {
            ConnectionState::Disconnected
        },
        ConnectionEvent::CloseDone => if s == ConnectionState::Uninitialized {
            s
        } else {
            ConnectionState::Closed
        },
    }
}

/// What closing the connection takes.
#[derive(Debug, Clone, Copy, PartialEq, Eq, Structural)]
pub enum KillPlan {
    /// There is no client: report that.
    NotInitialized,
    /// Already closed: nothing to do, and no error.
    AlreadyClosed,
    /// Close the socket, then report `CloseDone`.
    Close,
}

/// What closing takes in state `s`.
pub open spec fn kill_plan(s: ConnectionState) -> KillPlan {
    match s {
        ConnectionState::Uninitialized => KillPlan::NotInitialized,
        ConnectionState::Closed => KillPlan::AlreadyClosed,
        _ => KillPlan::Close,
    }
}

/// Closing is idempotent: once a close has been done, closing again takes
/// no work and reports no error, and the state stays closed.
pub proof fn lemma_kill_idempotent(s: ConnectionState)
    requires
        kill_plan(s) == KillPlan::Close,
    ensures
        next_state(s, ConnectionEvent::CloseDone) == ConnectionState::Closed,
        kill_plan(next_state(s, ConnectionEvent::CloseDone)) == KillPlan::AlreadyClosed,
        next_state(next_state(s, ConnectionEvent::CloseDone), ConnectionEvent::CloseDone)
            == ConnectionState::Closed,
{
}

/// What an update takes before its payload can be sent.
#[derive(Debug, Clone, Copy, PartialEq, Eq, Structural)]
pub enum SendPlan {
    /// There is no client: report that.
    NotInitialized,
    /// Reconnect first; send only if that succeeds.
    ReconnectFirst,
    /// Send now.
    Send,
}

/// The presence as it is sent: the six fields, the anchor of the elapsed
/// time in seconds since the epoch, and an optional button (label, URL).
#[derive(Debug)]
pub struct Payload {
    pub state: Option<String>,
    pub details: Option<String>,
    pub large_image: Option<String>,
    pub large_text: Option<String>,
    pub small_image: Option<String>,
    pub small_text: Option<String>,
    pub start_timestamp: i64,
    pub button: Option<(String, String)>,
}

/// The connection's decisions: its state, the client's application id, and
/// the fixed start of the session.
#[derive(Debug)]
pub struct ConnectionManager {
    pub state: ConnectionState,
    pub application_id: Option<String>,
    /// Seconds since the epoch when the process started.
    pub start_secs: u64,
}

impl ConnectionManager {
    /// No client yet; the session started `start_secs` seconds after the epoch.
    pub fn new(start_secs: u64) -> (r: ConnectionManager)
        ensures
            r.state == ConnectionState::Uninitialized,
            r.application_id is None,
            r.start_secs == start_secs,
    {
        ConnectionManager { state: ConnectionState::Uninitialized, application_id: None, start_secs }
    }

    /// Records the client made for `application_id`.
    pub fn create_client(&mut self, application_id: &str)
        ensures
            final(self).state == ConnectionState::Created,
            opt_view(final(self).application_id) == Some(application_id@),
            final(self).start_secs == old(self).start_secs,
    {
        self.application_id = Some(String::from_str(application_id));
        self.state = ConnectionState::Created;
    }

    /// Records what the caller reports.
    pub fn on_event(&mut self, e: ConnectionEvent)
        ensures
            final(self).state == next_state(old(self).state, e),
            final(self).application_id == old(self).application_id,
            final(self).start_secs == old(self).start_secs,
    {
        self.state = match e {
            ConnectionEvent::ClientCreated => ConnectionState::Created,
            ConnectionEvent::ConnectSucceeded => if self.state == ConnectionState::Uninitialized {
                self.state
            } else {
                ConnectionState::Connected
            },
            ConnectionEvent::ConnectFailed => if self.state == ConnectionState::Uninitialized {
                self.state
            } else {
                ConnectionState::Disconnected
            },
            ConnectionEvent::SendSucceeded => self.state,
            ConnectionEvent::SendFailed => if self.state == ConnectionState::Uninitialized {
                self.state
            } else {
                ConnectionState::Disconnected
            },
            ConnectionEvent::CloseDone => if self.state == ConnectionState::Uninitialized {
                self.state
            } else {
                ConnectionState::Closed
            },
        };
    }

    /// Whether updates can be sent without reconnecting.
    pub fn is_connected(&self) -> (r: bool)
        ensures
            r == (self.state == ConnectionState::Connected),
    {
        self.state == ConnectionState::Connected
    }

    /// Whether a connect may be attempted: only once a client exists.
    pub fn connect(&self) -> (r: Result<(), PresenceError>)
        ensures
            r is Ok <==> self.state != ConnectionState::Uninitialized,
            r matches Err(e) ==> e is Discord,
    {
        if self.state == ConnectionState::Uninitialized {
            Err(PresenceError::Discord(String::from_str("Discord client not initialized")))
        } else {
            Ok(())
        }
    }

    /// What closing takes. Closing twice is no error.
    pub fn kill(&self) -> (r: KillPlan)
        ensures
            r == kill_plan(self.state),
    {
        match self.state {
            ConnectionState::Uninitialized => KillPlan::NotInitialized,
            ConnectionState::Closed => KillPlan::AlreadyClosed,
            _ => KillPlan::Close,
        }
    }

    /// What an update takes: a send when connected, a reconnect first
    /// otherwise.
    pub fn plan_send(&self) -> (r: SendPlan)
        ensures
            self.state == ConnectionState::Uninitialized ==> r == SendPlan::NotInitialized,
            self.state == ConnectionState::Connected ==> r == SendPlan::Send,
            self.state != ConnectionState::Uninitialized && self.state
                != ConnectionState::Connected ==> r == SendPlan::ReconnectFirst,
    {
        match self.state {
            ConnectionState::Uninitialized => SendPlan::NotInitialized,
            ConnectionState::Connected => SendPlan::Send,
            _ => SendPlan::ReconnectFirst,
        }
    }

    /// The payload for the given fields: the session's fixed start as the
    /// elapsed-time anchor, and a button to `git_remote_url` where there is
    /// one. Fails where there is no client, or the start does not fit in an
    /// `i64`.
    pub fn change_activity(
        &self,
        state: Option<String>,
        details: Option<String>,
        large_image: Option<String>,
        large_text: Option<String>,
        small_image: Option<String>,
        small_text: Option<String>,
        git_remote_url: Option<String>,
    ) -> (r: Result<Payload, PresenceError>)
        ensures
            r is Ok <==> self.state != ConnectionState::Uninitialized && self.start_secs
                <= i64::MAX,
            r matches Err(e) ==> e is Discord,
            r matches Ok(p) ==> p.state == state && p.details == details && p.large_image
                == large_image && p.large_text == large_text && p.small_image == small_image
                && p.small_text == small_text && p.start_timestamp == self.start_secs as i64
                && match git_remote_url {
                Some(u) => p.button matches Some(b) && b.0@ == REPOSITORY_BUTTON_LABEL@ && b.1
                    == u,
                None => p.button is None,
            },
    {
        if self.state == ConnectionState::Uninitialized {
            return Err(PresenceError::Discord(String::from_str("Discord client not initialized")));
        }
        if self.start_secs > i64::MAX as u64 {
            return Err(PresenceError::Discord(String::from_str("Failed to convert timestamp")));
        }
        let button = match git_remote_url {
            Some(u) => Some((String::from_str(REPOSITORY_BUTTON_LABEL), u)),
            None => None,
        };
        Ok(
            Payload {
                state,
                details,
                large_image,
                large_text,
                small_image,
                small_text,
                start_timestamp: self.start_secs as i64,
                button,
            },
        )
    }

    /// Whether the client exists so that the presence can be cleared.
    pub fn clear_activity(&self) -> (r: Result<(), PresenceError>)
        ensures
            r is Ok <==> self.state != ConnectionState::Uninitialized,
            r matches Err(e) ==> e is Discord,
    {
        self.connect()
    }
}

} // verus!
