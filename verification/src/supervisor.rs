//! The outer connection loop's decisions.
//!
//! The supervisor owns the current configuration and the operator-visible
//! connection status. It decides when a new session may start, what a
//! configuration update means for the active session, and how a retry wait
//! resolves. The waiting and connecting themselves are transport work done
//! outside the crate.

use vstd::prelude::*;
use crate::config::{endpoint_changed, requires_reconnect, Config};
use crate::session::{LinkSession, SessionTiming, TerminationReason};
use crate::status::{ConnectionState, ConnectionStatus};

verus! {

/// How long the supervisor waits after a failed attempt or a terminated
/// session before trying again, in milliseconds. The wait is interruptible
/// by a configuration change.
pub const RETRY_INTERVAL_MS: u64 = 3000;

/// How long one connection attempt may take before it counts as failed, in
/// milliseconds.
pub const CONNECT_TIMEOUT_MS: u64 = 5000;

/// What ended a retry wait.
pub enum RetryEvent {
    /// A new configuration arrived while waiting; the wait ends at once so
    /// an endpoint switch is not delayed by a stale backoff.
    ConfigArrived(Config),
    /// The retry interval passed.
    TimerElapsed,
}

/// Owner of the outer retry loop's state.
pub struct Supervisor {
    pub config: Config,
    pub timing: SessionTiming,
    /// Set when the process is shutting down; the only way the loop ends.
    pub shutdown: bool,
    /// Where the link is in its lifecycle.
    pub state: ConnectionState,
    /// The last status shown to the operator.
    pub status: ConnectionStatus,
}

impl Supervisor {
    /// A supervisor that has not connected yet.
    pub fn new(config: Config, timing: SessionTiming) -> (s: Supervisor)
        ensures
            s.config == config,
            s.timing == timing,
            s.shutdown == false,
            s.state == ConnectionState::Disconnected,
            s.status == (ConnectionStatus { connected: false, latency_ms: Option::None }),
    {
        Supervisor {
            config,
            timing,
            shutdown: false,
            state: ConnectionState::Disconnected,
            status: ConnectionStatus { connected: false, latency_ms: None },
        }
    }

    /// Replace the configuration. Returns whether the active session must
    /// restart: exactly when the update changed host or port.
    pub fn update_config(&mut self, new_config: Config) -> (restart: bool)
        ensures
            restart == endpoint_changed(old(self).config, new_config),
            final(self).config == new_config,
            final(self).timing == old(self).timing,
            final(self).shutdown == old(self).shutdown,
            final(self).state == old(self).state,
            final(self).status == old(self).status,
    {
        let restart = requires_reconnect(&self.config, &new_config);
        self.config = new_config;
        restart
    }

    /// Apply a configuration update while a session is active: store it,
    /// and terminate the session exactly when the endpoint changed. An
    /// update that leaves host and port alone never interrupts the link.
    pub fn apply_config(&mut self, session: &mut LinkSession, new_config: Config) -> (restart:
        bool)
        ensures
            restart == endpoint_changed(old(self).config, new_config),
            final(self).config == new_config,
            final(self).timing == old(self).timing,
            final(self).shutdown == old(self).shutdown,
            final(self).state == old(self).state,
            final(self).status == old(self).status,
            restart ==> *final(session) == (LinkSession {
                connected: false,
                terminated: Option::Some(TerminationReason::EndpointChanged),
                ..*old(session)
            }),
            !restart ==> *final(session) == *old(session),
    {
        let restart = self.update_config(new_config);
        if restart {
            session.terminate(TerminationReason::EndpointChanged);
        }
        restart
    }

    /// Resolve a retry wait: a configuration that arrived during the wait
    /// replaces the stored one, a plain timer expiry changes nothing.
    pub fn resolve_retry(&mut self, event: RetryEvent)
        ensures
            (match event {
                RetryEvent::ConfigArrived(c) => final(self).config == c,
                RetryEvent::TimerElapsed => final(self).config == old(self).config,
            }),
            final(self).timing == old(self).timing,
            final(self).shutdown == old(self).shutdown,
            final(self).state == old(self).state,
            final(self).status == old(self).status,
    {
        match event {
            RetryEvent::ConfigArrived(c) => {
                self.config = c;
            },
            RetryEvent::TimerElapsed => {},
        }
    }

    /// Whether another connection attempt may start: only while no shutdown
    /// was requested.
    pub fn should_retry(&self) -> (r: bool)
        ensures
            r == !self.shutdown,
    {
        !self.shutdown
    }

    /// Request shutdown; the loop ends instead of retrying.
    pub fn request_shutdown(&mut self)
        ensures
            final(self).shutdown == true,
            final(self).config == old(self).config,
            final(self).timing == old(self).timing,
            final(self).state == old(self).state,
            final(self).status == old(self).status,
    {
        self.shutdown = true;
    }

    /// A connection attempt is starting.
    pub fn mark_connecting(&mut self)
        ensures
            final(self).state == ConnectionState::Connecting,
            final(self).config == old(self).config,
            final(self).timing == old(self).timing,
            final(self).shutdown == old(self).shutdown,
            final(self).status == old(self).status,
    {
        self.state = ConnectionState::Connecting;
    }

    /// A connection attempt failed or a session ended: the operator sees a
    /// disconnected link before the next attempt starts.
    pub fn mark_disconnected(&mut self)
        ensures
            final(self).state == ConnectionState::Disconnected,
            final(self).status == (ConnectionStatus { connected: false, latency_ms: Option::None }),
            final(self).config == old(self).config,
            final(self).timing == old(self).timing,
            final(self).shutdown == old(self).shutdown,
    {
        self.state = ConnectionState::Disconnected;
        self.status = ConnectionStatus { connected: false, latency_ms: None };
    }

    /// Record a status event coming out of the active session; the
    /// lifecycle follows it.
    pub fn record_status(&mut self, status: ConnectionStatus)
        ensures
            final(self).status == status,
            final(self).state == (if status.connected {
                ConnectionState::Connected
            } else {
                ConnectionState::Disconnected
            }),
            final(self).config == old(self).config,
            final(self).timing == old(self).timing,
            final(self).shutdown == old(self).shutdown,
    {
        self.state = if status.connected {
            ConnectionState::Connected
        } else {
            ConnectionState::Disconnected
        };
        self.status = status;
    }

    /// Start the protocol state for a connection that was just established
    /// to the configured endpoint.
    pub fn begin_session(&self, now_ms: u64) -> (r: (LinkSession, Vec<u8>))
        ensures
            r.0 == (LinkSession {
                timing: self.timing,
                last_heartbeat_ms: now_ms,
                last_ping_ms: now_ms,
                latency_ms: Option::None,
                connected: true,
                terminated: Option::None,
            }),
            r.1@ == crate::codec::encode_message(crate::messages::MessageView::Ping(now_ms)),
    {
        LinkSession::establish(self.timing, now_ms)
    }
}

} // verus!
