use crate::tags::ResultCode;
use vstd::prelude::*;

verus! {

/// Where a loaded module stands in its lifecycle, as seen by the engine.
#[derive(Debug, Clone, Copy, PartialEq, Eq, Structural)]
pub enum SessionState {
    /// The entry handshake has not happened.
    Unloaded,
    /// The tables have been exchanged; `begin_play` has not succeeded.
    Bound,
    /// `begin_play` succeeded and every tick since did too.
    Active,
    /// A lifecycle call answered `Panic`; the module must not be called again.
    Faulted,
}

/// A call across the boundary whose outcome decides the next state.
#[derive(Debug, Clone, Copy, PartialEq, Eq, Structural)]
pub enum SessionEvent {
    EntryBindings,
    BeginPlay(ResultCode),
    Tick(ResultCode),
}

/// Why a call was refused in the state the session was in.
#[derive(Debug, Clone, Copy, PartialEq, Eq, Structural)]
pub enum SessionError {
    /// The handshake happened already; it is made once per session.
    AlreadyBound,
    /// `begin_play` needs a bound module that has not begun play.
    NotBound,
    /// `tick` needs a module that has begun play.
    NotActive,
    /// The module faulted; nothing may be called any more.
    Faulted,
}

/// The lifecycle rule: the state that `e` leads to from `s`, or why `e` is
/// refused there (the state then stays as it was).
pub open spec fn spec_step(s: SessionState, e: SessionEvent) -> Result<SessionState, SessionError> {
    match (s, e) {
        (SessionState::Faulted, _) => Err(SessionError::Faulted),
        (SessionState::Unloaded, SessionEvent::EntryBindings) => Ok(SessionState::Bound),
        (_, SessionEvent::EntryBindings) => Err(SessionError::AlreadyBound),
        (SessionState::Bound, SessionEvent::BeginPlay(ResultCode::Success)) => Ok(
            SessionState::Active,
        ),
        (SessionState::Bound, SessionEvent::BeginPlay(ResultCode::Panic)) => Ok(
            SessionState::Faulted,
        ),
        (_, SessionEvent::BeginPlay(_)) => Err(SessionError::NotBound),
        (SessionState::Active, SessionEvent::Tick(ResultCode::Success)) => Ok(SessionState::Active),
        (SessionState::Active, SessionEvent::Tick(ResultCode::Panic)) => Ok(SessionState::Faulted),
        (_, SessionEvent::Tick(_)) => Err(SessionError::NotActive),
    }
}

/// The state after a run of events; a refused event leaves the state as it
/// was.
pub open spec fn spec_run(s: SessionState, es: Seq<SessionEvent>) -> SessionState
    decreases es.len(),
{
    if es.len() == 0 {
        s
    } else {
        let t = match spec_step(s, es[0]) {
            Ok(t) => t,
            Err(_) => s,
        };
        spec_run(t, es.drop_first())
    }
}

/// Applies one event to a state.
pub fn step(s: SessionState, e: SessionEvent) -> (r: Result<SessionState, SessionError>)
    ensures
        r == spec_step(s, e),
{
    match (s, e) {
        (SessionState::Faulted, _) => Err(SessionError::Faulted),
        (SessionState::Unloaded, SessionEvent::EntryBindings) => Ok(SessionState::Bound),
        (_, SessionEvent::EntryBindings) => Err(SessionError::AlreadyBound),
        (SessionState::Bound, SessionEvent::BeginPlay(ResultCode::Success)) => Ok(
            SessionState::Active,
        ),
        (SessionState::Bound, SessionEvent::BeginPlay(ResultCode::Panic)) => Ok(
            SessionState::Faulted,
        ),
        (_, SessionEvent::BeginPlay(_)) => Err(SessionError::NotBound),
        (SessionState::Active, SessionEvent::Tick(ResultCode::Success)) => Ok(SessionState::Active),
        (SessionState::Active, SessionEvent::Tick(ResultCode::Panic)) => Ok(SessionState::Faulted),
        (_, SessionEvent::Tick(_)) => Err(SessionError::NotActive),
    }
}

/// Tracks the lifecycle of one loaded module and refuses the calls that the
/// lifecycle does not allow.
#[derive(Debug)]
pub struct Session {
    state: SessionState,
}

impl Session {
    pub closed spec fn spec_state(&self) -> SessionState {
        self.state
    }

    /// A session whose module has not been bound yet.
    pub fn new() -> (r: Session)
        ensures
            r.spec_state() == SessionState::Unloaded,
    {
        Session { state: SessionState::Unloaded }
    }

    pub fn state(&self) -> (r: SessionState)
        ensures
            r == self.spec_state(),
    {
        self.state
    }

    /// Records an event. On `Ok` the session moves to the returned state;
    /// on `Err` it stays where it was.
    pub fn record(&mut self, e: SessionEvent) -> (r: Result<SessionState, SessionError>)
        ensures
            r == spec_step(old(self).spec_state(), e),
            final(self).spec_state() == match r {
                Ok(t) => t,
                Err(_) => old(self).spec_state(),
            },
    {
        let r = step(self.state, e);
        if let Ok(t) = r {
            self.state = t;
        }
        r
    }

    /// Records the entry handshake; a second one is refused.
    pub fn bind(&mut self) -> (r: Result<SessionState, SessionError>)
        ensures
            r == spec_step(old(self).spec_state(), SessionEvent::EntryBindings),
            final(self).spec_state() == match r {
                Ok(t) => t,
                Err(_) => old(self).spec_state(),
            },
    {
        self.record(SessionEvent::EntryBindings)
    }

    /// Records the outcome of `begin_play`.
    pub fn begin_play(&mut self, outcome: ResultCode) -> (r: Result<SessionState, SessionError>)
        ensures
            r == spec_step(old(self).spec_state(), SessionEvent::BeginPlay(outcome)),
            final(self).spec_state() == match r {
                Ok(t) => t,
                Err(_) => old(self).spec_state(),
            },
    {
        self.record(SessionEvent::BeginPlay(outcome))
    }

    /// Records the outcome of one `tick`.
    pub fn tick(&mut self, outcome: ResultCode) -> (r: Result<SessionState, SessionError>)
        ensures
            r == spec_step(old(self).spec_state(), SessionEvent::Tick(outcome)),
            final(self).spec_state() == match r {
                Ok(t) => t,
                Err(_) => old(self).spec_state(),
            },
    {
        self.record(SessionEvent::Tick(outcome))
    }

    /// Whether the engine may call `tick` now.
    pub fn may_tick(&self) -> (r: bool)
        ensures
            r == (self.spec_state() == SessionState::Active),
    {
        match self.state {
            SessionState::Active => true,
            _ => false,
        }
    }
}

/// No event leads back to the unloaded state once a session has left it.
proof fn lemma_never_unloaded_again(s: SessionState, es: Seq<SessionEvent>)
    requires
        s != SessionState::Unloaded,
    ensures
        spec_run(s, es) != SessionState::Unloaded,
    decreases es.len(),
{
    if es.len() > 0 {
        let t = match spec_step(s, es[0]) {
            Ok(t) => t,
            Err(_) => s,
        };
        lemma_never_unloaded_again(t, es.drop_first());
    }
}

/// The entry handshake succeeds once per session: after the first one,
/// whatever events follow, another handshake is refused.
pub proof fn lemma_entry_bindings_once(es: Seq<SessionEvent>)
    ensures
        spec_step(SessionState::Unloaded, SessionEvent::EntryBindings) == Ok::<
            SessionState,
            SessionError,
        >(SessionState::Bound),
        spec_step(spec_run(SessionState::Bound, es), SessionEvent::EntryBindings) is Err,
{
    lemma_never_unloaded_again(SessionState::Bound, es);
}

/// The faulted state is never left.
proof fn lemma_faulted_stays(es: Seq<SessionEvent>)
    ensures
        spec_run(SessionState::Faulted, es) == SessionState::Faulted,
    decreases es.len(),
{
    if es.len() > 0 {
        lemma_faulted_stays(es.drop_first());
    }
}

/// A tick that answers `Panic` leaves the session faulted, and from then on,
/// whatever events follow, every further tick is refused.
pub proof fn lemma_panic_tick_faults(s: SessionState, es: Seq<SessionEvent>, c: ResultCode)
    ensures
        spec_step(s, SessionEvent::Tick(ResultCode::Panic)) matches Ok(t) ==> t
            == SessionState::Faulted,
        spec_run(SessionState::Faulted, es) == SessionState::Faulted,
        spec_step(spec_run(SessionState::Faulted, es), SessionEvent::Tick(c)) == Err::<
            SessionState,
            SessionError,
        >(SessionError::Faulted),
{
    lemma_faulted_stays(es);
}

} // verus!
