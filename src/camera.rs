//! The camera's 4x4 transform and position, held as the IEEE-754
//! single-precision bit patterns that the game stores in memory. Moving an
//! element and negating one (a flip of the sign bit) are exact on bit patterns;
//! the rotations that need arithmetic run on the host side.
use vstd::prelude::*;

verus! {

/// Bit pattern of the single-precision value `1.0`.
pub const ONE_BITS: u32 = 0x3F80_0000;

/// Bit pattern of the single-precision value `0.0`.
pub const ZERO_BITS: u32 = 0;

/// The sign bit of a single-precision value.
pub const SIGN_BIT: u32 = 0x8000_0000;

/// Negation of a single-precision value, on its bit pattern.
pub open spec fn neg_bits(v: u32) -> u32 {
    v ^ SIGN_BIT
}

/// The identity transform, row-major.
pub open spec fn identity_elements() -> Seq<u32> {
    seq![
        ONE_BITS, ZERO_BITS, ZERO_BITS, ZERO_BITS,
        ZERO_BITS, ONE_BITS, ZERO_BITS, ZERO_BITS,
        ZERO_BITS, ZERO_BITS, ONE_BITS, ZERO_BITS,
        ZERO_BITS, ZERO_BITS, ZERO_BITS, ONE_BITS,
    ]
}

/// The position held in the translation row of a transform's elements.
pub open spec fn position_of(data: Seq<u32>) -> CameraPosition {
    CameraPosition { x: data[12], y: data[13], z: data[14] }
}

/// A transform's elements once `pos` is written into its translation row.
pub open spec fn with_position(data: Seq<u32>, pos: CameraPosition) -> Seq<u32> {
    data.update(12, pos.x).update(13, pos.y).update(14, pos.z)
}

/// Writing a position and reading it back gives the position written, and
/// every element outside the translation row keeps its value, whatever the
/// rotation held.
pub proof fn lemma_position_round_trip(data: Seq<u32>, pos: CameraPosition)
    requires
        data.len() == 16,
    ensures
        position_of(with_position(data, pos)) == pos,
        with_position(data, pos).len() == 16,
        forall|i: int|
            0 <= i < 16 && !(12 <= i < 15) ==> #[trigger] with_position(data, pos)[i] == data[i],
{
}

/// A point or direction in the game's world, one bit pattern per axis.
#[derive(Clone, Copy, Debug, PartialEq, Eq, Structural)]
pub struct CameraPosition {
    pub x: u32,
    pub y: u32,
    pub z: u32,
}

impl CameraPosition {
    pub fn new(x: u32, y: u32, z: u32) -> (r: CameraPosition)
        ensures
            r == (CameraPosition { x, y, z }),
    {
        CameraPosition { x, y, z }
    }
}

/// A row-major 4x4 transform: the right vector in elements 0-2, the up vector
/// in 4-6, the backward vector in 8-10, the position in 12-14.
#[derive(Clone, Copy, Debug)]
pub struct CameraMatrix {
    pub data: [u32; 16],
}

/// Index of the first position element.
pub const POSITION_START: usize = 12;

/// Index of the first element of the backward row.
pub const BACKWARD_START: usize = 8;

impl CameraMatrix {
    /// The position held in the translation row.
    pub open spec fn position(&self) -> CameraPosition {
        position_of(self.data@)
    }

    /// The forward vector: the backward row negated.
    pub open spec fn forward(&self) -> CameraPosition {
        CameraPosition {
            x: neg_bits(self.data@[8]),
            y: neg_bits(self.data@[9]),
            z: neg_bits(self.data@[10]),
        }
    }

    /// The identity transform.
    pub fn new() -> (r: CameraMatrix)
        ensures
            r.data@ == identity_elements(),
    {
        let r = CameraMatrix {
            data: [
                ONE_BITS, ZERO_BITS, ZERO_BITS, ZERO_BITS,
                ZERO_BITS, ONE_BITS, ZERO_BITS, ZERO_BITS,
                ZERO_BITS, ZERO_BITS, ONE_BITS, ZERO_BITS,
                ZERO_BITS, ZERO_BITS, ZERO_BITS, ONE_BITS,
            ],
        };
        assert(r.data@ =~= identity_elements());
        r
    }

    pub fn get_position(&self) -> (r: CameraPosition)
        ensures
            r == self.position(),
    {
        CameraPosition::new(self.data[12], self.data[13], self.data[14])
    }

    /// Writes the translation row; every other element keeps its value.
    pub fn set_position(&mut self, pos: &CameraPosition)
        ensures
            final(self).data@ == with_position(old(self).data@, *pos),
    {
        self.data[12] = pos.x;
        self.data[13] = pos.y;
        self.data[14] = pos.z;
    }

    pub fn get_forward(&self) -> (r: CameraPosition)
        ensures
            r == self.forward(),
    {
        CameraPosition {
            x: self.data[8] ^ SIGN_BIT,
            y: self.data[9] ^ SIGN_BIT,
            z: self.data[10] ^ SIGN_BIT,
        }
    }
}

} // verus!
