use vstd::arithmetic::div_mod::lemma_mod_pos_bound;
use vstd::prelude::*;

verus! {

/// Size and alignment of one field, in bytes.
#[derive(Debug, Clone, Copy, PartialEq, Eq, Structural)]
pub struct FieldShape {
    pub size: usize,
    pub align: usize,
}

/// Where each field of a structure starts, and the structure's own size and
/// alignment, under the sequential C layout.
#[derive(Debug, PartialEq, Eq)]
pub struct CLayout {
    pub offsets: Vec<usize>,
    pub size: usize,
    pub align: usize,
}

/// The least multiple of `a` that is not below `n`.
pub open spec fn align_up(n: int, a: int) -> int {
    n + (a - n % a) % a
}

/// Every field has a nonzero alignment.
pub open spec fn shapes_valid(fs: Seq<FieldShape>) -> bool {
    forall|i: int| 0 <= i < fs.len() ==> #[trigger] fs[i].align > 0
}

/// The end of the `k`-th field when the first `k` fields are laid out one
/// after another, each at the first offset its alignment allows.
pub open spec fn fields_end(fs: Seq<FieldShape>, k: nat) -> int
    decreases k,
{
    if k == 0 {
        0
    } else {
        align_up(fields_end(fs, (k - 1) as nat), fs[k - 1].align as int) + fs[k - 1].size
    }
}

/// Offset of field `k`.
pub open spec fn field_offset(fs: Seq<FieldShape>, k: nat) -> int {
    align_up(fields_end(fs, k), fs[k as int].align as int)
}

/// The largest alignment among the first `k` fields (at least 1).
pub open spec fn max_align(fs: Seq<FieldShape>, k: nat) -> int
    decreases k,
{
    if k == 0 {
        1
    } else {
        let m = max_align(fs, (k - 1) as nat);
        let a = fs[k - 1].align as int;
        if a > m {
            a
        } else {
            m
        }
    }
}

/// Size of the whole structure: the end of its last field, padded to the
/// structure's alignment.
pub open spec fn struct_size(fs: Seq<FieldShape>) -> int {
    align_up(fields_end(fs, fs.len()), max_align(fs, fs.len()))
}

impl CLayout {
    /// This layout is the sequential C layout of the fields `fs`.
    pub open spec fn is_layout_of(&self, fs: Seq<FieldShape>) -> bool {
        &&& self.offsets@.len() == fs.len()
        &&& forall|k: int|
            0 <= k < fs.len() ==> self.offsets@[k] as int == #[trigger] field_offset(fs, k as nat)
        &&& self.size as int == struct_size(fs)
        &&& self.align as int == max_align(fs, fs.len())
    }
}

pub proof fn lemma_align_up_bounds(n: int, a: int)
    requires
        0 <= n,
        0 < a,
    ensures
        n <= align_up(n, a) < n + a,
{
    lemma_mod_pos_bound(n, a);
    lemma_mod_pos_bound(a - n % a, a);
}

proof fn lemma_max_align_pos(fs: Seq<FieldShape>, k: nat)
    ensures
        max_align(fs, k) >= 1,
    decreases k,
{
    if k > 0 {
        lemma_max_align_pos(fs, (k - 1) as nat);
    }
}

proof fn lemma_fields_end_grows(fs: Seq<FieldShape>, j: nat, k: nat)
    requires
        shapes_valid(fs),
        j <= k <= fs.len(),
    ensures
        0 <= fields_end(fs, j) <= fields_end(fs, k),
    decreases k,
{
    if k > 0 {
        if j < k {
            lemma_fields_end_grows(fs, j, (k - 1) as nat);
        }
        lemma_fields_end_grows(fs, 0, (k - 1) as nat);
        lemma_align_up_bounds(fields_end(fs, (k - 1) as nat), fs[k - 1].align as int);
    }
}

/// The end of any prefix of the fields, and the offset of any field, lie
/// within the structure's size.
proof fn lemma_within_size(fs: Seq<FieldShape>, k: nat)
    requires
        shapes_valid(fs),
        k <= fs.len(),
    ensures
        fields_end(fs, k) <= struct_size(fs),
        k < fs.len() ==> field_offset(fs, k) <= struct_size(fs),
{
    lemma_fields_end_grows(fs, k, fs.len());
    lemma_fields_end_grows(fs, 0, fs.len());
    lemma_max_align_pos(fs, fs.len());
    lemma_align_up_bounds(fields_end(fs, fs.len()), max_align(fs, fs.len()));
    if k < fs.len() {
        lemma_fields_end_grows(fs, k + 1, fs.len());
        lemma_fields_end_grows(fs, 0, k);
        lemma_align_up_bounds(fields_end(fs, k), fs[k as int].align as int);
    }
}

/// Lays the fields out in order under the C rules. Gives `None` exactly when
/// the structure's size does not fit in `usize`.
pub fn c_layout(fields: &Vec<FieldShape>) -> (r: Option<CLayout>)
    requires
        shapes_valid(fields@),
    ensures
        r is Some <==> struct_size(fields@) <= usize::MAX,
        r matches Some(l) ==> l.is_layout_of(fields@),
{
    let ghost fs = fields@;
    let mut offsets: Vec<usize> = Vec::new();
    let mut end: usize = 0;
    let mut align: usize = 1;
    let mut i: usize = 0;
    while i < fields.len()
        invariant
            fs == fields@,
            shapes_valid(fs),
            i <= fs.len(),
            end as int == fields_end(fs, i as nat),
            align as int == max_align(fs, i as nat),
            offsets@.len() == i,
            forall|k: int|
                0 <= k < i ==> offsets@[k] as int == #[trigger] field_offset(fs, k as nat),
        decreases fs.len() - i,
    {
        let f = fields[i];
        proof {
            lemma_mod_pos_bound(end as int, f.align as int);
            lemma_mod_pos_bound(f.align - end % f.align, f.align as int);
            lemma_within_size(fs, i as nat);
            lemma_within_size(fs, (i + 1) as nat);
        }
        let pad: usize = (f.align - end % f.align) % f.align;
        let off: usize = match end.checked_add(pad) {
            Some(v) => v,
            None => {
                return None;
            },
        };
        assert(off as int == field_offset(fs, i as nat));
        end = match off.checked_add(f.size) {
            Some(v) => v,
            None => {
                return None;
            },
        };
        if f.align > align {
            align = f.align;
        }
        offsets.push(off);
        i = i + 1;
    }
    proof {
        lemma_max_align_pos(fs, fs.len());
        lemma_mod_pos_bound(end as int, align as int);
        lemma_mod_pos_bound(align - end % align, align as int);
    }
    let pad: usize = (align - end % align) % align;
    match end.checked_add(pad) {
        Some(size) => Some(CLayout { offsets, size, align }),
        None => None,
    }
}

} // verus!
