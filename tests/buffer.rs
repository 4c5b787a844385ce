use unreal_ffi::buffer::{fill_slots, FillOutcome, OverflowPolicy};
use unreal_ffi::{ActorHandle, Uuid};

fn handles(addrs: &[usize]) -> Vec<ActorHandle> {
    addrs.iter().map(|&addr| ActorHandle { addr }).collect()
}

#[test]
fn fill_with_room_to_spare() {
    let mut slots = handles(&[0, 0, 0, 0]);
    let actors = handles(&[0x10, 0x20, 0x30]);
    let r = fill_slots(&mut slots, &actors, OverflowPolicy::Refuse);
    assert_eq!(r, FillOutcome::Complete { written: 3 });
    assert_eq!(r.count(), 3);
    assert_eq!(slots, handles(&[0x10, 0x20, 0x30, 0]));
}

#[test]
fn fill_exactly_full() {
    let mut slots = handles(&[0, 0]);
    let actors = handles(&[1, 2]);
    let r = fill_slots(&mut slots, &actors, OverflowPolicy::Truncate);
    assert_eq!(r, FillOutcome::Complete { written: 2 });
    assert_eq!(slots, actors);
}

#[test]
fn fill_nothing() {
    let mut slots: Vec<ActorHandle> = Vec::new();
    let r = fill_slots(&mut slots, &[], OverflowPolicy::Refuse);
    assert_eq!(r, FillOutcome::Complete { written: 0 });
    assert!(slots.is_empty());
}

#[test]
fn fill_overflow_truncates() {
    let mut slots = vec![Uuid { bytes: [0; 16] }; 2];
    let ids: Vec<Uuid> = (1u8..=3).map(|i| Uuid { bytes: [i; 16] }).collect();
    let r = fill_slots(&mut slots, &ids, OverflowPolicy::Truncate);
    assert_eq!(r, FillOutcome::Truncated { written: 2, available: 3 });
    assert_eq!(r.count(), 2);
    assert_eq!(slots, ids[..2].to_vec());
}

#[test]
fn fill_overflow_refused() {
    let mut slots = handles(&[7, 8]);
    let actors = handles(&[1, 2, 3]);
    let r = fill_slots(&mut slots, &actors, OverflowPolicy::Refuse);
    assert_eq!(r, FillOutcome::Refused { needed: 3 });
    assert_eq!(r.count(), 0);
    assert_eq!(slots, handles(&[7, 8]));
}
