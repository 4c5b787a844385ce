use unreal_ffi::{ActionState, ActorClass, ActorComponentType, ComponentRef, ResultCode};

#[test]
fn result_code_tags() {
    assert_eq!(ResultCode::Success.tag(), 0);
    assert_eq!(ResultCode::Panic.tag(), 1);
    assert_eq!(ResultCode::from_tag(0), Some(ResultCode::Success));
    assert_eq!(ResultCode::from_tag(1), Some(ResultCode::Panic));
    assert_eq!(ResultCode::from_tag(2), None);
    assert_eq!(ResultCode::from_tag(255), None);
}

#[test]
fn action_state_tags() {
    let all = [
        ActionState::Pressed,
        ActionState::Released,
        ActionState::Held,
        ActionState::Nothing,
    ];
    for (i, s) in all.iter().enumerate() {
        assert_eq!(s.tag() as usize, i);
        assert_eq!(ActionState::from_tag(i as u8), Some(*s));
    }
    assert_eq!(ActionState::from_tag(4), None);
}

#[test]
fn actor_class_tags() {
    assert_eq!(ActorClass::RustActor.tag(), 0);
    assert_eq!(ActorClass::CameraActor.tag(), 1);
    assert_eq!(ActorClass::from_tag(1), Some(ActorClass::CameraActor));
    assert_eq!(ActorClass::from_tag(2), None);
    assert_eq!(ActorClass::from_tag(u32::MAX), None);
}

#[test]
fn component_type_tags() {
    assert_eq!(ActorComponentType::Primitive.tag(), 0);
    assert_eq!(ActorComponentType::from_tag(0), Some(ActorComponentType::Primitive));
    assert_eq!(ActorComponentType::from_tag(1), None);
}

#[test]
fn component_ref_from_raw() {
    let c = ComponentRef::from_raw(0, 0x1000).unwrap();
    assert_eq!(c.ty, ActorComponentType::Primitive);
    assert_eq!(c.addr, 0x1000);
    assert_eq!(c.to_raw(), (0, 0x1000));
    assert_eq!(ComponentRef::from_raw(7, 0x1000), None);
}
