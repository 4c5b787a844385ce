use crate::layout::{
    align_up, c_layout, field_offset, fields_end, max_align, shapes_valid, struct_size, CLayout, FieldShape,
};
use vstd::arithmetic::div_mod::lemma_mod_multiples_basic;
use vstd::prelude::*;

verus! {

/// Every structure that crosses the boundary, as laid out on a target with
/// 8-byte pointers.
#[derive(Debug, Clone, Copy, PartialEq, Eq, Structural)]
pub enum BoundaryType {
    Vector3,
    Quaternion,
    Color,
    Entity,
    Uuid,
    ActorComponentPtr,
    HitResult,
    PhysicsBindings,
    ModuleBindings,
    EngineBindings,
}

pub open spec fn fs(size: usize, align: usize) -> FieldShape {
    FieldShape { size, align }
}

/// The fields of each boundary structure, in declaration order.
pub open spec fn spec_fields(t: BoundaryType) -> Seq<FieldShape> {
    match t {
        BoundaryType::Vector3 => seq![fs(4, 4), fs(4, 4), fs(4, 4)],
        BoundaryType::Quaternion => seq![fs(4, 4), fs(4, 4), fs(4, 4), fs(4, 4)],
        BoundaryType::Color => seq![fs(1, 1), fs(1, 1), fs(1, 1), fs(1, 1)],
        BoundaryType::Entity => seq![fs(8, 8)],
        BoundaryType::Uuid => seq![fs(16, 1)],
        BoundaryType::ActorComponentPtr => seq![fs(4, 4), fs(8, 8)],
        BoundaryType::HitResult => seq![
            fs(8, 8),
            fs(4, 4),
            fs(12, 4),
            fs(12, 4),
            fs(12, 4),
            fs(4, 4),
        ],
        BoundaryType::PhysicsBindings => Seq::new(6, |i: int| fs(8, 8)),
        BoundaryType::ModuleBindings => Seq::new(4, |i: int| fs(8, 8)),
        BoundaryType::EngineBindings => Seq::new(12, |i: int| fs(8, 8)).push(fs(48, 8)),
    }
}

/// The layout that both sides of the boundary are compiled against: field
/// offsets, size and alignment of each structure.
pub open spec fn reference_offsets(t: BoundaryType) -> Seq<int> {
    match t {
        BoundaryType::Vector3 => seq![0, 4, 8],
        BoundaryType::Quaternion => seq![0, 4, 8, 12],
        BoundaryType::Color => seq![0, 1, 2, 3],
        BoundaryType::Entity => seq![0],
        BoundaryType::Uuid => seq![0],
        BoundaryType::ActorComponentPtr => seq![0, 8],
        BoundaryType::HitResult => seq![0, 8, 12, 24, 36, 48],
        BoundaryType::PhysicsBindings => Seq::new(6, |i: int| 8 * i),
        BoundaryType::ModuleBindings => Seq::new(4, |i: int| 8 * i),
        BoundaryType::EngineBindings => Seq::new(13, |i: int| 8 * i),
    }
}

pub open spec fn reference_size(t: BoundaryType) -> int {
    match t {
        BoundaryType::Vector3 => 12,
        BoundaryType::Quaternion => 16,
        BoundaryType::Color => 4,
        BoundaryType::Entity => 8,
        BoundaryType::Uuid => 16,
        BoundaryType::ActorComponentPtr => 16,
        BoundaryType::HitResult => 56,
        BoundaryType::PhysicsBindings => 48,
        BoundaryType::ModuleBindings => 32,
        BoundaryType::EngineBindings => 144,
    }
}

pub open spec fn reference_align(t: BoundaryType) -> int {
    match t {
        BoundaryType::Color | BoundaryType::Uuid => 1,
        BoundaryType::Vector3 | BoundaryType::Quaternion => 4,
        _ => 8,
    }
}

/// A run of pointer-sized fields is laid out back to back.
proof fn lemma_pointer_run(s: Seq<FieldShape>, k: nat)
    requires
        k <= s.len(),
        forall|i: int| 0 <= i < k ==> s[i] == fs(8, 8),
    ensures
        fields_end(s, k) == 8 * k,
        max_align(s, k) == if k == 0 {
            1int
        } else {
            8int
        },
    decreases k,
{
    if k > 0 {
        lemma_pointer_run(s, (k - 1) as nat);
        lemma_mod_multiples_basic((k - 1) as int, 8);
    }
}

proof fn lemma_pointer_table(t: BoundaryType, n: nat)
    requires
        spec_fields(t) == Seq::new(n, |i: int| fs(8, 8)),
        reference_offsets(t) == Seq::new(n, |i: int| 8 * i),
        reference_size(t) == 8 * n,
        reference_align(t) == 8,
        n > 0,
    ensures
        layout_matches_reference(t),
{
    let s = spec_fields(t);
    lemma_pointer_run(s, n);
    lemma_mod_multiples_basic(n as int, 8);
    assert forall|k: int| 0 <= k < s.len() implies #[trigger] field_offset(s, k as nat)
        == reference_offsets(t)[k] by {
        lemma_pointer_run(s, k as nat);
        lemma_mod_multiples_basic(k, 8);
    }
}

/// The computed layout of `t` agrees with its reference layout.
pub open spec fn layout_matches_reference(t: BoundaryType) -> bool {
    let s = spec_fields(t);
    &&& shapes_valid(s)
    &&& s.len() == reference_offsets(t).len()
    &&& forall|k: int|
        0 <= k < s.len() ==> #[trigger] field_offset(s, k as nat) == reference_offsets(t)[k]
    &&& struct_size(s) == reference_size(t)
    &&& max_align(s, s.len()) == reference_align(t)
}

/// Places field `k` after a prefix that ends at `e`.
proof fn lemma_place(s: Seq<FieldShape>, k: nat, e: int, m: int)
    requires
        k < s.len(),
        fields_end(s, k) == e,
        max_align(s, k) == m,
    ensures
        field_offset(s, k) == align_up(e, s[k as int].align as int),
        fields_end(s, k + 1) == align_up(e, s[k as int].align as int) + s[k as int].size,
        max_align(s, k + 1) == if s[k as int].align > m {
            s[k as int].align as int
        } else {
            m
        },
{
}

proof fn lemma_vector3()
    ensures
        layout_matches_reference(BoundaryType::Vector3),
{
    let s = spec_fields(BoundaryType::Vector3);
    lemma_place(s, 0, 0, 1);
    lemma_place(s, 1, 4, 4);
    lemma_place(s, 2, 8, 4);
}

proof fn lemma_quaternion()
    ensures
        layout_matches_reference(BoundaryType::Quaternion),
{
    let s = spec_fields(BoundaryType::Quaternion);
    assert(s[0] == fs(4, 4) && s[1] == fs(4, 4) && s[2] == fs(4, 4) && s[3] == fs(4, 4));
    lemma_place(s, 0, 0, 1);
    lemma_place(s, 1, 4, 4);
    lemma_place(s, 2, 8, 4);
    lemma_place(s, 3, 12, 4);
}

proof fn lemma_color()
    ensures
        layout_matches_reference(BoundaryType::Color),
{
    let s = spec_fields(BoundaryType::Color);
    assert(s[0] == fs(1, 1) && s[1] == fs(1, 1) && s[2] == fs(1, 1) && s[3] == fs(1, 1));
    lemma_place(s, 0, 0, 1);
    lemma_place(s, 1, 1, 1);
    lemma_place(s, 2, 2, 1);
    lemma_place(s, 3, 3, 1);
}

proof fn lemma_single_field(t: BoundaryType)
    requires
        t == BoundaryType::Entity || t == BoundaryType::Uuid,
    ensures
        layout_matches_reference(t),
{
    lemma_place(spec_fields(t), 0, 0, 1);
}

proof fn lemma_component_ptr()
    ensures
        layout_matches_reference(BoundaryType::ActorComponentPtr),
{
    let s = spec_fields(BoundaryType::ActorComponentPtr);
    assert(s[0] == fs(4, 4) && s[1] == fs(8, 8));
    lemma_place(s, 0, 0, 1);
    lemma_place(s, 1, 4, 4);
}

proof fn lemma_hit_result()
    ensures
        layout_matches_reference(BoundaryType::HitResult),
{
    let s = spec_fields(BoundaryType::HitResult);
    lemma_place(s, 0, 0, 1);
    lemma_place(s, 1, 8, 8);
    lemma_place(s, 2, 12, 8);
    lemma_place(s, 3, 24, 8);
    lemma_place(s, 4, 36, 8);
    lemma_place(s, 5, 48, 8);
}

proof fn lemma_engine_bindings()
    ensures
        layout_matches_reference(BoundaryType::EngineBindings),
{
    let t = BoundaryType::EngineBindings;
    let s = spec_fields(t);
    lemma_pointer_run(s, 12);
    lemma_mod_multiples_basic(12, 8);
    lemma_mod_multiples_basic(18, 8);
    assert(fields_end(s, 13) == 144);
    assert(max_align(s, 13) == 8);
    assert forall|k: int| 0 <= k < s.len() implies #[trigger] field_offset(s, k as nat)
        == reference_offsets(t)[k] by {
        if k < 12 {
            lemma_pointer_run(s, k as nat);
            lemma_mod_multiples_basic(k, 8);
        }
    }
}

/// For every boundary structure, the C layout of its fields is exactly the
/// reference layout: the same number of fields, every field offset, the
/// size and the alignment.
pub proof fn lemma_layout_matches_reference(t: BoundaryType)
    ensures
        layout_matches_reference(t),
{
    match t {
        BoundaryType::HitResult => lemma_hit_result(),
        BoundaryType::PhysicsBindings => {
            assert(spec_fields(t) == Seq::new(6, |i: int| fs(8, 8)));
            lemma_pointer_table(t, 6);
        },
        BoundaryType::ModuleBindings => lemma_pointer_table(t, 4),
        BoundaryType::EngineBindings => lemma_engine_bindings(),
        BoundaryType::Vector3 => lemma_vector3(),
        BoundaryType::Quaternion => lemma_quaternion(),
        BoundaryType::Color => lemma_color(),
        BoundaryType::ActorComponentPtr => lemma_component_ptr(),
        BoundaryType::Entity | BoundaryType::Uuid => lemma_single_field(t),
    }
}

fn pointer_fields(n: usize) -> (r: Vec<FieldShape>)
    ensures
        r@ == Seq::new(n as nat, |i: int| fs(8, 8)),
{
    let mut r: Vec<FieldShape> = Vec::new();
    let mut i: usize = 0;
    while i < n
        invariant
            i <= n,
            r@ == Seq::new(i as nat, |j: int| fs(8, 8)),
        decreases n - i,
    {
        r.push(FieldShape { size: 8, align: 8 });
        i = i + 1;
        assert(r@ =~= Seq::new(i as nat, |j: int| fs(8, 8)));
    }
    r
}

/// The fields of a boundary structure, in declaration order.
pub fn boundary_fields(t: BoundaryType) -> (r: Vec<FieldShape>)
    ensures
        r@ == spec_fields(t),
{
    let r = match t {
        BoundaryType::Vector3 => vec![
            FieldShape { size: 4, align: 4 },
            FieldShape { size: 4, align: 4 },
            FieldShape { size: 4, align: 4 },
        ],
        BoundaryType::Quaternion => vec![
            FieldShape { size: 4, align: 4 },
            FieldShape { size: 4, align: 4 },
            FieldShape { size: 4, align: 4 },
            FieldShape { size: 4, align: 4 },
        ],
        BoundaryType::Color => vec![
            FieldShape { size: 1, align: 1 },
            FieldShape { size: 1, align: 1 },
            FieldShape { size: 1, align: 1 },
            FieldShape { size: 1, align: 1 },
        ],
        BoundaryType::Entity => vec![FieldShape { size: 8, align: 8 }],
        BoundaryType::Uuid => vec![FieldShape { size: 16, align: 1 }],
        BoundaryType::ActorComponentPtr => vec![
            FieldShape { size: 4, align: 4 },
            FieldShape { size: 8, align: 8 },
        ],
        BoundaryType::HitResult => vec![
            FieldShape { size: 8, align: 8 },
            FieldShape { size: 4, align: 4 },
            FieldShape { size: 12, align: 4 },
            FieldShape { size: 12, align: 4 },
            FieldShape { size: 12, align: 4 },
            FieldShape { size: 4, align: 4 },
        ],
        BoundaryType::PhysicsBindings => pointer_fields(6),
        BoundaryType::ModuleBindings => pointer_fields(4),
        BoundaryType::EngineBindings => {
            let mut v = pointer_fields(12);
            v.push(FieldShape { size: 48, align: 8 });
            v
        },
    };
    assert(r@ =~= spec_fields(t));
    r
}

/// Computes the C layout of a boundary structure from its fields. The
/// result is the reference layout of that structure.
pub fn boundary_layout(t: BoundaryType) -> (r: CLayout)
    ensures
        r.is_layout_of(spec_fields(t)),
        r.offsets@.len() == reference_offsets(t).len(),
        forall|k: int| 0 <= k < r.offsets@.len() ==> r.offsets@[k] == reference_offsets(t)[k],
        r.size == reference_size(t),
        r.align == reference_align(t),
{
    let fields = boundary_fields(t);
    proof {
        lemma_layout_matches_reference(t);
    }
    match c_layout(&fields) {
        Some(l) => {
            assert forall|k: int| 0 <= k < l.offsets@.len() implies l.offsets@[k]
                == reference_offsets(t)[k] by {
                assert(l.offsets@[k] == field_offset(spec_fields(t), k as nat));
            }
            l
        },
        None => {
            assert(false);
            CLayout { offsets: Vec::new(), size: 0, align: 1 }
        },
    }
}

} // verus!
