use vstd::prelude::*;

use crate::world::BlockType;

verus! {

// Bit order, low to high:
//   0: -Z   1: +Z   2: -X   3: +X   4: -Y   5: +Y
// The two high bits of the byte are always clear.

/// Face index of the negative-Z face.
pub const FACE_NZ: usize = 0;

/// Face index of the positive-Z face.
pub const FACE_PZ: usize = 1;

/// Face index of the negative-X face.
pub const FACE_NX: usize = 2;

/// Face index of the positive-X face.
pub const FACE_PX: usize = 3;

/// Face index of the negative-Y face.
pub const FACE_NY: usize = 4;

/// Face index of the positive-Y face.
pub const FACE_PY: usize = 5;

/// Whether bit `pos` of `m` is set.
pub open spec fn mask_bit(m: u8, pos: usize) -> bool {
    (m >> (pos as u8)) & 1u8 == 1u8
}

/// Which of the six axis-aligned faces of a cube are render candidates,
/// packed into the low six bits of a byte.
#[derive(Debug, Default, PartialEq, Eq, Structural, Clone, Copy)]
pub struct RenderCubeByte(u8);

/// The mask whose byte is `v`.
pub closed spec fn from_value(v: u8) -> RenderCubeByte {
    RenderCubeByte(v)
}

/// `from_value` names the mask with exactly that byte.
pub proof fn lemma_from_value(v: u8)
    ensures
        from_value(v)@ == v,
{
}

/// Masks are nothing but their byte: equal bytes, equal masks.
pub proof fn lemma_rcb_eq(a: RenderCubeByte, b: RenderCubeByte)
    requires
        a@ == b@,
    ensures
        a == b,
{
}

impl View for RenderCubeByte {
    type V = u8;

    closed spec fn view(&self) -> u8 {
        self.0
    }
}

/// The mask value with `pos` (when below 6) viewed as a render candidate and
/// every other face unchanged, mirroring what `set_bit` computes.
pub open spec fn spec_set_bit(m: u8, pos: usize, bit: bool) -> u8 {
    (m & !(1u8 << (pos as u8))) | ((if bit {
        1u8
    } else {
        0u8
    }) << (pos as u8))
}

impl RenderCubeByte {
    /// The mask with no face a render candidate.
    pub fn nothing() -> (r: Self)
        ensures
            r@ == 0u8,
    {
        RenderCubeByte(0)
    }

    /// The mask with all six faces render candidates.
    pub fn all() -> (r: Self)
        ensures
            r@ == 0x3fu8,
    {
        RenderCubeByte(0x3f)
    }

    pub fn is_nothing(&self) -> (r: bool)
        ensures
            r == (self@ == 0u8),
    {
        self.0 == 0
    }

    pub fn get_value(&self) -> (r: u8)
        ensures
            r == self@,
    {
        self.0
    }

    /// Whether face `pos` is a render candidate.
    pub fn bool_in_pos(&self, pos: usize) -> (r: bool)
        requires
            pos < 8,
        ensures
            r == mask_bit(self@, pos),
    {
        (self.0 >> (pos as u8)) & 1u8 == 1u8
    }

    /// Clears every face bit whose bit is set in `other`: a set bit in
    /// `other` stands for an occluding neighbor on that face.
    pub fn apply_other_negative(&mut self, other: Self)
        ensures
            final(self)@ == old(self)@ & (!other@ & 0x3fu8),
    {
        let neg_other: u8 = !other.0 & 0x3f;
        self.0 = self.0 & neg_other;
    }

    /// Keeps only the face bits that are also set in `other`.
    pub fn apply_other(&mut self, other: Self)
        ensures
            final(self)@ == old(self)@ & other@,
    {
        self.0 = self.0 & other.0;
    }

    /// All faces are candidates for a solid block, none for an empty one.
    pub fn from_block_type(bt: &BlockType) -> (r: Self)
        ensures
            r@ == (if bt.spec_is_empty() {
                0u8
            } else {
                0x3fu8
            }),
    {
        let value: u8 = match bt {
            BlockType::Air => 0,
            _ => 0x3f,
        };
        Self(value)
    }

    pub fn set_bit(&mut self, pos: usize, bit: bool)
        requires
            pos < 8,
        ensures
            final(self)@ == spec_set_bit(old(self)@, pos, bit),
    {
        let mask: u8 = !(1u8 << (pos as u8));
        let flag: u8 = (if bit {
            1u8
        } else {
            0u8
        }) << (pos as u8);
        self.0 = self.0 & mask | flag;
    }

    pub fn get_bit(&self, pos: usize) -> (r: bool)
        ensures
            r == (pos < 8 && mask_bit(self@, pos)),
    {
        if pos < 8 {
            let v: u8 = self.0;
            let r = v & (1u8 << (pos as u8)) != 0;
            proof {
                assert(r == mask_bit(v, pos)) by (bit_vector)
                    requires
                        r == (v & (1u8 << (pos as u8)) != 0),
                        pos < 8,
                ;
            }
            r
        } else {
            false
        }
    }
}

/// The all-candidates mask has exactly the six face bits set; the empty mask
/// has none.
pub proof fn lemma_mask_bit_consts()
    by (bit_vector)
    ensures
        forall|i: usize| i < 8 ==> #[trigger] mask_bit(0x3fu8, i) == (i < 6),
        forall|i: usize| i < 8 ==> !#[trigger] mask_bit(0u8, i),
{
}

} // verus!
