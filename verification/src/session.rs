//! The session store: the security filter's record of who is logged in.
//!
//! A session binds an opaque id to one authenticated principal. It is
//! created at successful login, destroyed at logout, and expires after an
//! inactivity window: a request with a mutating verb and no valid session
//! never reaches the mutation coordinator. Time enters as a caller-supplied
//! clock reading, so expiry is checked against the moment of each request.

use vstd::prelude::*;

use crate::gate::GateError;

verus! {

/// One active session: its id, its principal, and when it was last used.
#[derive(Debug)]
pub struct SessionRecord {
    pub id: u64,
    pub principal: String,
    pub last_seen: u64,
}

/// All active sessions, with the inactivity timeout they share.
pub struct SessionStore {
    pub timeout: u64,
    pub next_id: u64,
    pub sessions: Vec<SessionRecord>,
}

impl SessionStore {
    /// A session with this id is stored.
    pub open spec fn spec_has_session(&self, id: u64) -> bool {
        exists|i: int| 0 <= i < self.sessions@.len() && self.sessions@[i].id == id
    }

    /// The position of a stored session.
    pub open spec fn spec_index_of(&self, id: u64) -> int {
        choose|i: int| 0 <= i < self.sessions@.len() && self.sessions@[i].id == id
    }

    /// The stored session with an id.
    pub open spec fn spec_session(&self, id: u64) -> SessionRecord {
        self.sessions@[self.spec_index_of(id)]
    }

    /// A stored session is live at a moment when its inactivity window has
    /// not yet passed.
    pub open spec fn spec_live(&self, id: u64, now: u64) -> bool {
        &&& self.spec_has_session(id)
        &&& now <= self.spec_session(id).last_seen + self.timeout
    }

    /// Store well-formedness: session ids are unique and below the counter.
    pub open spec fn wf(&self) -> bool {
        &&& (forall|i: int, j: int|
            0 <= i < j < self.sessions@.len() ==> self.sessions@[i].id != self.sessions@[j].id)
        &&& (forall|i: int|
            0 <= i < self.sessions@.len() ==> #[trigger] self.sessions@[i].id < self.next_id)
    }

    /// An empty store with the given inactivity timeout.
    pub fn new(timeout: u64) -> (store: SessionStore)
        ensures
            store.wf(),
            store.timeout == timeout,
            store.next_id == 0,
            store.sessions@ == Seq::<SessionRecord>::empty(),
    {
        SessionStore { timeout, next_id: 0, sessions: Vec::new() }
    }

    /// The position of a session id, if stored.
    fn find_session(&self, id: u64) -> (r: Option<usize>)
        ensures
            match r {
                Some(i) => i < self.sessions@.len() && self.sessions@[i as int].id == id
                    && self.spec_has_session(id),
                None => !self.spec_has_session(id),
            },
    {
        let n = self.sessions.len();
        let mut i: usize = 0;
        while i < n
            invariant
                0 <= i <= n == self.sessions@.len(),
                forall|k: int| 0 <= k < i ==> #[trigger] self.sessions@[k].id != id,
            decreases n - i,
        {
            if self.sessions[i].id == id {
                return Some(i);
            }
            i = i + 1;
        }
        None
    }

    /// Creates a session for a principal at successful login and returns its
    /// fresh id; nothing else in the store changes.
    pub fn login(&mut self, principal: String, now: u64) -> (id: u64)
        requires
            old(self).wf(),
            old(self).next_id < u64::MAX,
        ensures
            final(self).wf(),
            final(self).timeout == old(self).timeout,
            !old(self).spec_has_session(id),
            final(self).spec_has_session(id),
            final(self).sessions@ == old(self).sessions@.push(
                SessionRecord { id, principal, last_seen: now },
            ),
            final(self).spec_live(id, now),
    {
        let id = self.next_id;
        self.next_id = self.next_id + 1;
        self.sessions.push(SessionRecord { id, principal, last_seen: now });
        proof {
            let at = self.sessions@.len() - 1;
            assert(self.sessions@[at].id == id);
            let chosen = self.spec_index_of(id);
            assert(self.sessions@[chosen].id == id);
            if chosen != at {
                assert(false);
            }
        }
        id
    }

    /// Destroys a session at logout; destroying an unknown id is harmless.
    pub fn logout(&mut self, id: u64) -> (removed: bool)
        requires
            old(self).wf(),
        ensures
            final(self).wf(),
            final(self).timeout == old(self).timeout,
            final(self).next_id == old(self).next_id,
            removed == old(self).spec_has_session(id),
            !final(self).spec_has_session(id),
            removed ==> final(self).sessions@ == old(self).sessions@.remove(
                old(self).spec_index_of(id),
            ),
            !removed ==> *final(self) == *old(self),
    {
        let at = match self.find_session(id) {
            Some(at) => at,
            None => {
                return false;
            },
        };
        proof {
            let chosen = old(self).spec_index_of(id);
            assert(old(self).sessions@[chosen].id == id);
            if chosen != at {
                assert(false);
            }
        }
        let _ = self.sessions.remove(at);
        proof {
            assert forall|i: int|
                0 <= i < self.sessions@.len() implies #[trigger] self.sessions@[i].id != id by {
                if i < at {
                    assert(self.sessions@[i] == old(self).sessions@[i]);
                } else {
                    assert(self.sessions@[i] == old(self).sessions@[i + 1]);
                }
            }
        }
        true
    }

    /// The principal of a live session, `None` for an unknown or expired id.
    pub fn lookup(&self, id: u64, now: u64) -> (r: Option<String>)
        requires
            self.wf(),
        ensures
            match r {
                Some(principal) => self.spec_live(id, now) && principal@ == self.spec_session(
                    id,
                ).principal@,
                None => !self.spec_live(id, now),
            },
    {
        let at = match self.find_session(id) {
            Some(at) => at,
            None => {
                return None;
            },
        };
        proof {
            let chosen = self.spec_index_of(id);
            assert(self.sessions@[chosen].id == id);
            if chosen != at {
                assert(false);
            }
        }
        let record = &self.sessions[at];
        if record.last_seen <= u64::MAX - self.timeout && now <= record.last_seen + self.timeout {
            Some(record.principal.clone())
        } else if record.last_seen > u64::MAX - self.timeout {
            // The window extends past the clock's range: it cannot have
            // passed yet.
            Some(record.principal.clone())
        } else {
            None
        }
    }

    /// Refreshes a session's inactivity window at the moment of a request;
    /// unknown ids are left alone.
    pub fn touch(&mut self, id: u64, now: u64)
        requires
            old(self).wf(),
        ensures
            final(self).wf(),
            final(self).timeout == old(self).timeout,
            final(self).next_id == old(self).next_id,
            !old(self).spec_has_session(id) ==> *final(self) == *old(self),
            old(self).spec_has_session(id) ==> ({
                let at = old(self).spec_index_of(id);
                let o = old(self).sessions@[at];
                final(self).sessions@ == old(self).sessions@.update(
                    at,
                    SessionRecord { id: o.id, principal: o.principal, last_seen: now },
                )
            }),
    {
        let at = match self.find_session(id) {
            Some(at) => at,
            None => {
                return ;
            },
        };
        proof {
            let chosen = old(self).spec_index_of(id);
            assert(old(self).sessions@[chosen].id == id);
            if chosen != at {
                assert(false);
            }
        }
        let mut record = self.sessions.remove(at);
        record.last_seen = now;
        self.sessions.insert(at, record);
        proof {
            assert(self.sessions@ =~= old(self).sessions@.update(at as int, record));
        }
    }

    /// The session requirement on a login-protected route: the request must
    /// carry a session id that is stored and unexpired; on success the
    /// authenticated principal is exposed to the handler downstream.
    pub fn require_session(&self, session: Option<u64>, now: u64) -> (r: Result<String, GateError>)
        requires
            self.wf(),
        ensures
            match r {
                Ok(principal) => ({
                    &&& session is Some
                    &&& self.spec_live(session.unwrap(), now)
                    &&& principal@ == self.spec_session(session.unwrap()).principal@
                }),
                Err(e) => e == GateError::Unauthorized && match session {
                    Some(id) => !self.spec_live(id, now),
                    None => true,
                },
            },
    {
        let id = match session {
            None => {
                return Err(GateError::Unauthorized);
            },
            Some(id) => id,
        };
        match self.lookup(id, now) {
            Some(principal) => Ok(principal),
            None => Err(GateError::Unauthorized),
        }
    }
}

} // verus!
