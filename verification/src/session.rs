//! The adapter's session table: an arena of game sessions keyed by an
//! integer id, so the host holds an opaque handle rather than an address.
//! Creating a session yields a fresh id; starting it consumes the id
//! exactly once, and a second start of the same id is rejected rather
//! than undefined.

use vstd::prelude::*;

verus! {

/// What a session slot may be: still waiting to be started, or already
/// handed to the engine.
#[derive(Clone, Copy, Debug, PartialEq, Eq, Structural)]
pub enum SessionState {
    Live,
    Consumed,
}

/// Why a start was refused.
#[derive(Clone, Copy, Debug, PartialEq, Eq, Structural)]
pub enum SessionError {
    UnknownSession,
    AlreadyStarted,
}

/// Starting is allowed exactly when the id names a slot that is still live.
pub open spec fn start_allowed(slots: Seq<SessionState>, id: int) -> bool {
    0 <= id < slots.len() && slots[id] is Live
}

/// The arena of sessions. The view is the state of every slot ever
/// created, in creation order; a slot's index is its handle.
pub struct SessionTable {
    slots: Vec<SessionState>,
}

impl SessionTable {
    pub closed spec fn view(&self) -> Seq<SessionState> {
        self.slots@
    }

    /// A new table holds no sessions.
    pub fn new() -> (t: Self)
        ensures
            t@ == Seq::<SessionState>::empty(),
    {
        SessionTable { slots: Vec::new() }
    }

    /// Register one new session and hand back its handle: the next free
    /// index, which no earlier call has returned.
    pub fn create_game(&mut self) -> (id: usize)
        ensures
            id == old(self)@.len(),
            final(self)@ == old(self)@.push(SessionState::Live),
    {
        let id: usize = self.slots.len();
        self.slots.push(SessionState::Live);
        id
    }

    /// Consume the handle `id`, exactly once: the slot must exist and
    /// must not have been started before. On success the slot is marked
    /// consumed; any failure leaves the table unchanged and says whether
    /// the handle was unknown or already used.
    pub fn start_game(&mut self, id: usize) -> (r: Result<(), SessionError>)
        ensures
            r is Ok <==> start_allowed(old(self)@, id as int),
            r is Ok ==> final(self)@ == old(self)@.update(id as int, SessionState::Consumed),
            r is Err ==> final(self)@ == old(self)@,
            id >= old(self)@.len() ==> r == Err::<(), SessionError>(SessionError::UnknownSession),
            id < old(self)@.len() && old(self)@[id as int] is Consumed ==> r == Err::<
                (),
                SessionError,
            >(SessionError::AlreadyStarted),
    {
        if id >= self.slots.len() {
            return Err(SessionError::UnknownSession);
        }
        match self.slots[id] {
            SessionState::Consumed => Err(SessionError::AlreadyStarted),
            SessionState::Live => {
                self.slots.set(id, SessionState::Consumed);
                Ok(())
            },
        }
    }
}

/// A handle cannot be consumed twice: once a start has succeeded, the
/// same id can never satisfy the start condition again, whatever that
/// start returned — the second call must fail with `AlreadyStarted`.
pub proof fn lemma_start_consumes_once(slots: Seq<SessionState>, id: int)
    requires
        start_allowed(slots, id),
    ensures
        !start_allowed(slots.update(id, SessionState::Consumed), id),
{
}

} // verus!
