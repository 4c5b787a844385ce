use crate::values::{Color, QuaternionBits, Vector3Bits};
use vstd::prelude::*;

verus! {

/// The four bytes of `v`, least significant first.
pub open spec fn u32_bytes(v: u32) -> Seq<u8> {
    seq![(v & 0xff) as u8, ((v >> 8) & 0xff) as u8, ((v >> 16) & 0xff) as u8, (v >> 24) as u8]
}

/// The 32-bit word whose bytes, least significant first, start at `at`.
pub open spec fn word_at(b: Seq<u8>, at: int) -> u32 {
    word_of(b[at], b[at + 1], b[at + 2], b[at + 3])
}

pub open spec fn word_of(b0: u8, b1: u8, b2: u8, b3: u8) -> u32 {
    (b0 as u32) | ((b1 as u32) << 8) | ((b2 as u32) << 16) | ((b3 as u32) << 24)
}

proof fn lemma_word_of_bytes(v: u32)
    ensures
        word_of(
            (v & 0xff) as u8,
            ((v >> 8) & 0xff) as u8,
            ((v >> 16) & 0xff) as u8,
            (v >> 24) as u8,
        ) == v,
{
    assert(((v & 0xff) as u8 as u32) | ((((v >> 8) & 0xff) as u8 as u32) << 8) | ((((v >> 16)
        & 0xff) as u8 as u32) << 16) | (((v >> 24) as u8 as u32) << 24) == v) by (bit_vector);
}

proof fn lemma_bytes_of_word(b0: u8, b1: u8, b2: u8, b3: u8)
    ensures
        u32_bytes(word_of(b0, b1, b2, b3)) == seq![b0, b1, b2, b3],
{
    let w = word_of(b0, b1, b2, b3);
    assert((((b0 as u32) | ((b1 as u32) << 8) | ((b2 as u32) << 16) | ((b3 as u32) << 24))
        & 0xff) as u8 == b0) by (bit_vector);
    assert(((((b0 as u32) | ((b1 as u32) << 8) | ((b2 as u32) << 16) | ((b3 as u32) << 24))
        >> 8) & 0xff) as u8 == b1) by (bit_vector);
    assert(((((b0 as u32) | ((b1 as u32) << 8) | ((b2 as u32) << 16) | ((b3 as u32) << 24))
        >> 16) & 0xff) as u8 == b2) by (bit_vector);
    assert((((b0 as u32) | ((b1 as u32) << 8) | ((b2 as u32) << 16) | ((b3 as u32) << 24))
        >> 24) as u8 == b3) by (bit_vector);
    assert(u32_bytes(w) =~= seq![b0, b1, b2, b3]);
}

/// Reading a word back from the bytes it was written as gives the word.
pub proof fn lemma_word_round_trip(v: u32, pre: Seq<u8>, post: Seq<u8>)
    ensures
        word_at(pre + u32_bytes(v) + post, pre.len() as int) == v,
{
    let b = pre + u32_bytes(v) + post;
    let n = pre.len() as int;
    assert(b[n] == u32_bytes(v)[0]);
    assert(b[n + 1] == u32_bytes(v)[1]);
    assert(b[n + 2] == u32_bytes(v)[2]);
    assert(b[n + 3] == u32_bytes(v)[3]);
    lemma_word_of_bytes(v);
}

/// Writing the word read at `at` gives back the same four bytes.
proof fn lemma_bytes_round_trip(b: Seq<u8>, at: int)
    requires
        0 <= at,
        at + 4 <= b.len(),
    ensures
        u32_bytes(word_at(b, at)) == b.subrange(at, at + 4),
{
    lemma_bytes_of_word(b[at], b[at + 1], b[at + 2], b[at + 3]);
    assert(b.subrange(at, at + 4) =~= seq![b[at], b[at + 1], b[at + 2], b[at + 3]]);
}

/// Appends the four bytes of `v`, least significant first.
pub fn put_word(out: &mut Vec<u8>, v: u32)
    ensures
        final(out)@ == old(out)@ + u32_bytes(v),
{
    out.push((v & 0xff) as u8);
    out.push(((v >> 8) & 0xff) as u8);
    out.push(((v >> 16) & 0xff) as u8);
    out.push((v >> 24) as u8);
    assert(final(out)@ =~= old(out)@ + u32_bytes(v));
}

/// Reads the word whose bytes, least significant first, start at `at`.
pub fn get_word(b: &[u8], at: usize) -> (r: u32)
    requires
        at + 4 <= b@.len(),
    ensures
        r == word_at(b@, at as int),
{
    (b[at] as u32) | ((b[at + 1] as u32) << 8) | ((b[at + 2] as u32) << 16) | ((b[at + 3] as u32)
        << 24)
}

impl Color {
    /// The colour's bytes in field order: red, green, blue, alpha.
    pub open spec fn spec_bytes(self) -> Seq<u8> {
        seq![self.r, self.g, self.b, self.a]
    }

    pub open spec fn spec_from_bytes(b: Seq<u8>) -> Option<Color> {
        if b.len() == 4 {
            Some(Color { r: b[0], g: b[1], b: b[2], a: b[3] })
        } else {
            None
        }
    }

    pub fn to_bytes(&self) -> (r: Vec<u8>)
        ensures
            r@ == self.spec_bytes(),
    {
        let r = vec![self.r, self.g, self.b, self.a];
        assert(r@ =~= self.spec_bytes());
        r
    }

    /// Reads a colour from exactly four bytes; any other length gives `None`.
    pub fn from_bytes(b: &[u8]) -> (r: Option<Color>)
        ensures
            r == Self::spec_from_bytes(b@),
    {
        if b.len() == 4 {
            Some(Color { r: b[0], g: b[1], b: b[2], a: b[3] })
        } else {
            None
        }
    }
}

impl Vector3Bits {
    /// The vector's bytes: each component in field order, least significant
    /// byte first.
    pub open spec fn spec_bytes(self) -> Seq<u8> {
        u32_bytes(self.x) + u32_bytes(self.y) + u32_bytes(self.z)
    }

    pub open spec fn spec_from_bytes(b: Seq<u8>) -> Option<Vector3Bits> {
        if b.len() == 12 {
            Some(Vector3Bits { x: word_at(b, 0), y: word_at(b, 4), z: word_at(b, 8) })
        } else {
            None
        }
    }

    pub fn to_bytes(&self) -> (r: Vec<u8>)
        ensures
            r@ == self.spec_bytes(),
    {
        let mut r: Vec<u8> = Vec::new();
        put_word(&mut r, self.x);
        put_word(&mut r, self.y);
        put_word(&mut r, self.z);
        assert(r@ =~= self.spec_bytes());
        r
    }

    /// Reads a vector from exactly twelve bytes; any other length gives `None`.
    pub fn from_bytes(b: &[u8]) -> (r: Option<Vector3Bits>)
        ensures
            r == Self::spec_from_bytes(b@),
    {
        if b.len() == 12 {
            Some(Vector3Bits { x: get_word(b, 0), y: get_word(b, 4), z: get_word(b, 8) })
        } else {
            None
        }
    }
}

impl QuaternionBits {
    /// The quaternion's bytes: each component in field order, least
    /// significant byte first.
    pub open spec fn spec_bytes(self) -> Seq<u8> {
        u32_bytes(self.x) + u32_bytes(self.y) + u32_bytes(self.z) + u32_bytes(self.w)
    }

    pub open spec fn spec_from_bytes(b: Seq<u8>) -> Option<QuaternionBits> {
        if b.len() == 16 {
            Some(
                QuaternionBits {
                    x: word_at(b, 0),
                    y: word_at(b, 4),
                    z: word_at(b, 8),
                    w: word_at(b, 12),
                },
            )
        } else {
            None
        }
    }

    pub fn to_bytes(&self) -> (r: Vec<u8>)
        ensures
            r@ == self.spec_bytes(),
    {
        let mut r: Vec<u8> = Vec::new();
        put_word(&mut r, self.x);
        put_word(&mut r, self.y);
        put_word(&mut r, self.z);
        put_word(&mut r, self.w);
        assert(r@ =~= self.spec_bytes());
        r
    }

    /// Reads a quaternion from exactly sixteen bytes; any other length gives
    /// `None`.
    pub fn from_bytes(b: &[u8]) -> (r: Option<QuaternionBits>)
        ensures
            r == Self::spec_from_bytes(b@),
    {
        if b.len() == 16 {
            Some(
                QuaternionBits {
                    x: get_word(b, 0),
                    y: get_word(b, 4),
                    z: get_word(b, 8),
                    w: get_word(b, 12),
                },
            )
        } else {
            None
        }
    }
}

/// A colour written to its bytes and read back is the same colour, and four
/// bytes read as a colour and written again are the same bytes.
pub proof fn lemma_color_round_trip(c: Color, b: Seq<u8>)
    ensures
        Color::spec_from_bytes(c.spec_bytes()) == Some(c),
        Color::spec_from_bytes(b) matches Some(d) ==> d.spec_bytes() == b,
{
    if b.len() == 4 {
        assert(seq![b[0], b[1], b[2], b[3]] =~= b);
    }
}

/// A vector written to its bytes and read back has bit-identical
/// components, and twelve bytes read as a vector and written again are the
/// same bytes.
pub proof fn lemma_vector3_round_trip(v: Vector3Bits, b: Seq<u8>)
    ensures
        Vector3Bits::spec_from_bytes(v.spec_bytes()) == Some(v),
        Vector3Bits::spec_from_bytes(b) matches Some(d) ==> d.spec_bytes() == b,
{
    let e = Seq::<u8>::empty();
    lemma_word_round_trip(v.x, e, u32_bytes(v.y) + u32_bytes(v.z));
    lemma_word_round_trip(v.y, u32_bytes(v.x), u32_bytes(v.z));
    lemma_word_round_trip(v.z, u32_bytes(v.x) + u32_bytes(v.y), e);
    assert(e + u32_bytes(v.x) + (u32_bytes(v.y) + u32_bytes(v.z)) =~= v.spec_bytes());
    assert(u32_bytes(v.x) + u32_bytes(v.y) + u32_bytes(v.z) =~= v.spec_bytes());
    assert(u32_bytes(v.x) + u32_bytes(v.y) + u32_bytes(v.z) + e =~= v.spec_bytes());
    if b.len() == 12 {
        lemma_bytes_round_trip(b, 0);
        lemma_bytes_round_trip(b, 4);
        lemma_bytes_round_trip(b, 8);
        assert(b.subrange(0, 4) + b.subrange(4, 8) + b.subrange(8, 12) =~= b);
    }
}

/// A quaternion written to its bytes and read back has bit-identical
/// components, and sixteen bytes read as a quaternion and written again are
/// the same bytes.
pub proof fn lemma_quaternion_round_trip(q: QuaternionBits, b: Seq<u8>)
    ensures
        QuaternionBits::spec_from_bytes(q.spec_bytes()) == Some(q),
        QuaternionBits::spec_from_bytes(b) matches Some(d) ==> d.spec_bytes() == b,
{
    let e = Seq::<u8>::empty();
    let (bx, by, bz, bw) = (u32_bytes(q.x), u32_bytes(q.y), u32_bytes(q.z), u32_bytes(q.w));
    lemma_word_round_trip(q.x, e, by + bz + bw);
    lemma_word_round_trip(q.y, bx, bz + bw);
    lemma_word_round_trip(q.z, bx + by, bw);
    lemma_word_round_trip(q.w, bx + by + bz, e);
    assert(e + bx + (by + bz + bw) =~= q.spec_bytes());
    assert(bx + by + (bz + bw) =~= q.spec_bytes());
    assert(bx + by + bz + bw =~= q.spec_bytes());
    assert(bx + by + bz + bw + e =~= q.spec_bytes());
    if b.len() == 16 {
        lemma_bytes_round_trip(b, 0);
        lemma_bytes_round_trip(b, 4);
        lemma_bytes_round_trip(b, 8);
        lemma_bytes_round_trip(b, 12);
        assert(b.subrange(0, 4) + b.subrange(4, 8) + b.subrange(8, 12) + b.subrange(12, 16) =~= b);
    }
}

} // verus!
