use unreal_ffi::abi::{boundary_fields, boundary_layout, BoundaryType};
use unreal_ffi::layout::{c_layout, FieldShape};

fn shape(size: usize, align: usize) -> FieldShape {
    FieldShape { size, align }
}

#[test]
fn spatial_layouts() {
    let v = boundary_layout(BoundaryType::Vector3);
    assert_eq!(v.offsets, vec![0, 4, 8]);
    assert_eq!((v.size, v.align), (12, 4));
    let q = boundary_layout(BoundaryType::Quaternion);
    assert_eq!(q.offsets, vec![0, 4, 8, 12]);
    assert_eq!((q.size, q.align), (16, 4));
    let c = boundary_layout(BoundaryType::Color);
    assert_eq!(c.offsets, vec![0, 1, 2, 3]);
    assert_eq!((c.size, c.align), (4, 1));
}

#[test]
fn handle_layouts() {
    let e = boundary_layout(BoundaryType::Entity);
    assert_eq!((e.offsets.clone(), e.size, e.align), (vec![0], 8, 8));
    let u = boundary_layout(BoundaryType::Uuid);
    assert_eq!((u.offsets.clone(), u.size, u.align), (vec![0], 16, 1));
    let p = boundary_layout(BoundaryType::ActorComponentPtr);
    assert_eq!((p.offsets.clone(), p.size, p.align), (vec![0, 8], 16, 8));
}

#[test]
fn hit_result_layout() {
    let h = boundary_layout(BoundaryType::HitResult);
    assert_eq!(h.offsets, vec![0, 8, 12, 24, 36, 48]);
    assert_eq!((h.size, h.align), (56, 8));
}

#[test]
fn binding_table_layouts() {
    let p = boundary_layout(BoundaryType::PhysicsBindings);
    assert_eq!(p.offsets, vec![0, 8, 16, 24, 32, 40]);
    assert_eq!(p.size, 48);
    let m = boundary_layout(BoundaryType::ModuleBindings);
    assert_eq!(m.offsets, vec![0, 8, 16, 24]);
    assert_eq!(m.size, 32);
    let e = boundary_layout(BoundaryType::EngineBindings);
    assert_eq!(e.offsets.len(), 13);
    assert_eq!(e.offsets[12], 96);
    assert_eq!((e.size, e.align), (144, 8));
    assert_eq!(boundary_fields(BoundaryType::EngineBindings)[12], shape(48, 8));
}

#[test]
fn c_layout_pads_between_and_after() {
    let l = c_layout(&vec![shape(1, 1), shape(8, 8), shape(2, 2)]).unwrap();
    assert_eq!(l.offsets, vec![0, 8, 16]);
    assert_eq!((l.size, l.align), (24, 8));
}

#[test]
fn c_layout_of_no_fields() {
    let l = c_layout(&vec![]).unwrap();
    assert!(l.offsets.is_empty());
    assert_eq!((l.size, l.align), (0, 1));
}

#[test]
fn c_layout_overflow_is_none() {
    assert_eq!(c_layout(&vec![shape(usize::MAX, 1), shape(1, 1)]), None);
    assert_eq!(c_layout(&vec![shape(usize::MAX - 2, 1), shape(1, 4)]), None);
    assert!(c_layout(&vec![shape(usize::MAX, 1)]).is_some());
}
