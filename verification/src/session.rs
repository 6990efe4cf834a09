//! The per-connection session state machine: session id, reply-id
//! counter, and coarse connection state.
//!
//! A session moves only Disconnected -> Connected (via `initialize`) and
//! Connected -> Authenticated (via `authenticate`); `close` resets it
//! unconditionally. The reply counter starts at 65534 on (re)initialization
//! and increments by one per issued command; 65535 is itself a valid
//! emitted id, after which the counter resets to 0.
//!
//! This type holds the state of one logical connection as a plain value;
//! callers that share one session across tasks keep it behind an explicit
//! shared-ownership wrapper with internal locking, so that concurrent
//! mutators cannot interleave.

use vstd::prelude::*;

use crate::error::Error;

verus! {

/// Session state.
#[derive(Debug, Clone, Copy, PartialEq, Eq, Structural)]
pub enum SessionState {
    /// Not connected.
    Disconnected,
    /// Connected but not authenticated.
    Connected,
    /// Authenticated and ready for commands.
    Authenticated,
}

/// Initial reply id (from the protocol manual: USHRT_MAX - 1).
pub const INITIAL_REPLY_ID: u16 = 65534;

/// Session manager: session id, reply counter, and connection state.
#[derive(Debug, Clone, Copy, PartialEq, Eq, Structural)]
pub struct Session {
    /// Session id assigned by the device (0 when not connected).
    pub session_id: u16,
    /// Reply counter (starts at 65534).
    pub reply_counter: u16,
    /// Current session state.
    pub state: SessionState,
}

/// The reply counter after one id has been emitted: it increments by one,
/// except that emitting 65535 resets it to 0.
pub open spec fn next_counter_spec(counter: u16) -> u16 {
    if counter == 65535 {
        0
    } else {
        (counter + 1) as u16
    }
}

impl Session {
    /// Create a new disconnected session.
    pub fn new() -> (s: Session)
        ensures
            s.session_id == 0,
            s.reply_counter == INITIAL_REPLY_ID,
            s.state == SessionState::Disconnected,
    {
        Session { session_id: 0, reply_counter: INITIAL_REPLY_ID, state: SessionState::Disconnected }
    }

    /// Get the current session id.
    pub fn session_id(&self) -> (r: u16)
        ensures
            r == self.session_id,
    {
        self.session_id
    }

    /// Get the current state.
    pub fn state(&self) -> (r: SessionState)
        ensures
            r == self.state,
    {
        self.state
    }

    /// Check if connected (connected or authenticated).
    pub fn is_connected(&self) -> (r: bool)
        ensures
            r == (self.state != SessionState::Disconnected),
    {
        match self.state {
            SessionState::Disconnected => false,
            _ => true,
        }
    }

    /// Check if authenticated.
    pub fn is_authenticated(&self) -> (r: bool)
        ensures
            r == (self.state == SessionState::Authenticated),
    {
        match self.state {
            SessionState::Authenticated => true,
            _ => false,
        }
    }

    /// Initialize the session with the device-assigned session id: allowed
    /// only from the Disconnected state; resets the reply counter and moves
    /// to Connected. In any other state the session is left unchanged.
    pub fn initialize(&mut self, session_id: u16) -> (r: Result<(), Error>)
        ensures
            old(self).state == SessionState::Disconnected ==> {
                &&& r is Ok
                &&& final(self).session_id == session_id
                &&& final(self).reply_counter == INITIAL_REPLY_ID
                &&& final(self).state == SessionState::Connected
            },
            old(self).state != SessionState::Disconnected ==> {
                &&& r == Err::<(), Error>(Error::InvalidSessionState(old(self).state))
                &&& *final(self) == *old(self)
            },
    {
        match self.state {
            SessionState::Disconnected => {
                self.session_id = session_id;
                self.reply_counter = INITIAL_REPLY_ID;
                self.state = SessionState::Connected;
                Ok(())
            },
            s => Err(Error::InvalidSessionState(s)),
        }
    }

    /// Mark the session as authenticated: allowed only from the Connected
    /// state; session id and reply counter are unchanged. In any other
    /// state the session is left unchanged.
    pub fn authenticate(&mut self) -> (r: Result<(), Error>)
        ensures
            old(self).state == SessionState::Connected ==> {
                &&& r is Ok
                &&& *final(self) == (Session {
                    state: SessionState::Authenticated,
                    ..*old(self)
                })
            },
            old(self).state != SessionState::Connected ==> {
                &&& r == Err::<(), Error>(Error::InvalidSessionState(old(self).state))
                &&& *final(self) == *old(self)
            },
    {
        match self.state {
            SessionState::Connected => {
                self.state = SessionState::Authenticated;
                Ok(())
            },
            s => Err(Error::InvalidSessionState(s)),
        }
    }

    /// Close the session: an unconditional, idempotent reset to
    /// Disconnected with session id 0 and the initial reply counter.
    pub fn close(&mut self)
        ensures
            final(self).session_id == 0,
            final(self).reply_counter == INITIAL_REPLY_ID,
            final(self).state == SessionState::Disconnected,
    {
        self.session_id = 0;
        self.reply_counter = INITIAL_REPLY_ID;
        self.state = SessionState::Disconnected;
    }

    /// Emit the next reply id: returns the current counter value, then
    /// advances the counter, resetting it to 0 right after 65535 has been
    /// emitted (so the sequence is 65534, 65535, 0, 1, ...).
    pub fn next_reply_id(&mut self) -> (id: u16)
        ensures
            id == old(self).reply_counter,
            final(self).reply_counter == next_counter_spec(old(self).reply_counter),
            final(self).session_id == old(self).session_id,
            final(self).state == old(self).state,
    {
        let id = self.reply_counter;
        if id == 65535 {
            self.reply_counter = 0;
        } else {
            self.reply_counter = id + 1;
        }
        id
    }

    /// Reset the reply counter to its initial value.
    pub fn reset_reply_counter(&mut self)
        ensures
            final(self).reply_counter == INITIAL_REPLY_ID,
            final(self).session_id == old(self).session_id,
            final(self).state == old(self).state,
    {
        self.reply_counter = INITIAL_REPLY_ID;
    }
}

impl Default for Session {
    /// A fresh session starts disconnected.
    fn default() -> (s: Session)
        ensures
            s.session_id == 0,
            s.reply_counter == INITIAL_REPLY_ID,
            s.state == SessionState::Disconnected,
    {
        Session::new()
    }
}

} // verus!
