use unreal_ffi::session::{step, Session, SessionError, SessionEvent, SessionState};
use unreal_ffi::ResultCode;

#[test]
fn entry_bindings_only_once() {
    let mut s = Session::new();
    assert_eq!(s.state(), SessionState::Unloaded);
    assert_eq!(s.bind(), Ok(SessionState::Bound));
    assert_eq!(s.bind(), Err(SessionError::AlreadyBound));
    assert_eq!(s.state(), SessionState::Bound);
    assert_eq!(s.begin_play(ResultCode::Success), Ok(SessionState::Active));
    assert_eq!(s.bind(), Err(SessionError::AlreadyBound));
    assert_eq!(s.state(), SessionState::Active);
}

#[test]
fn panic_tick_faults_and_refuses_further_ticks() {
    let mut s = Session::new();
    s.bind().unwrap();
    s.begin_play(ResultCode::Success).unwrap();
    assert!(s.may_tick());
    assert_eq!(s.tick(ResultCode::Success), Ok(SessionState::Active));
    assert_eq!(s.tick(ResultCode::Panic), Ok(SessionState::Faulted));
    assert!(!s.may_tick());
    assert_eq!(s.tick(ResultCode::Success), Err(SessionError::Faulted));
    assert_eq!(s.bind(), Err(SessionError::Faulted));
    assert_eq!(s.state(), SessionState::Faulted);
}

#[test]
fn begin_play_panic_faults() {
    let mut s = Session::new();
    s.bind().unwrap();
    assert_eq!(s.begin_play(ResultCode::Panic), Ok(SessionState::Faulted));
    assert_eq!(s.begin_play(ResultCode::Success), Err(SessionError::Faulted));
}

#[test]
fn calls_out_of_order_are_refused() {
    let mut s = Session::new();
    assert!(!s.may_tick());
    assert_eq!(s.tick(ResultCode::Success), Err(SessionError::NotActive));
    assert_eq!(s.begin_play(ResultCode::Success), Err(SessionError::NotBound));
    s.bind().unwrap();
    assert_eq!(s.tick(ResultCode::Success), Err(SessionError::NotActive));
    s.begin_play(ResultCode::Success).unwrap();
    assert_eq!(s.begin_play(ResultCode::Success), Err(SessionError::NotBound));
    assert_eq!(
        step(SessionState::Active, SessionEvent::Tick(ResultCode::Panic)),
        Ok(SessionState::Faulted)
    );
}
