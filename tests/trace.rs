use unreal_ffi::trace::{read_line_trace, TraceError};
use unreal_ffi::{ActorHandle, Entity};

#[test]
fn trace_hit_and_miss() {
    let a = ActorHandle { addr: 0xdead_0000 };
    assert_eq!(read_line_trace(1, a), Ok(Some(a)));
    assert_eq!(read_line_trace(7, a), Ok(Some(a)));
    assert_eq!(read_line_trace(0, ActorHandle::null()), Ok(None));
}

#[test]
fn trace_inconsistent_answers() {
    assert_eq!(read_line_trace(1, ActorHandle::null()), Err(TraceError::HitWithoutActor));
    assert_eq!(read_line_trace(0, ActorHandle { addr: 8 }), Err(TraceError::ActorWithoutHit));
}

#[test]
fn null_handle_and_entity() {
    assert!(ActorHandle::null().is_null());
    assert!(!ActorHandle { addr: 1 }.is_null());
    let e = Entity { id: u64::MAX };
    assert_eq!(e.id, u64::MAX);
}
