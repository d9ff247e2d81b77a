//! Packed face descriptor: one visible voxel face as a fixed 4-byte record.

use vstd::prelude::*;

verus! {

/// One visible voxel face, packed for direct upload to the GPU.
///
/// `position` holds the three 4-bit coordinates, one nibble each:
/// x in bits 0..4, y in bits 4..8, z in bits 8..12; the top nibble is
/// always zero. `u` and `v` are independent 8-bit texture indices.
#[derive(Debug, Clone, Copy, PartialEq, Eq, Structural)]
pub struct FaceData {
    position: u16,
    u: u8,
    v: u8,
}

/// The packed position word for coordinates `x`, `y`, `z`: each is
/// truncated to its low 4 bits, then placed one nibble apart.
pub open spec fn pack_position(x: u8, y: u8, z: u8) -> u16 {
    (((x & 15) as u16) | (((y & 15) as u16) << 4) | (((z & 15) as u16) << 8)) as u16
}

impl FaceData {
    /// Encodes one face. Coordinates above 15 are silently truncated to
    /// their low 4 bits; this is the documented masking policy, not an
    /// error.
    pub fn new(x: u8, y: u8, z: u8, u: u8, v: u8) -> (r: Self)
        ensures
            r.position_spec() == pack_position(x, y, z),
            r.u_spec() == u,
            r.v_spec() == v,
    {
        let xm: u16 = (x & 15) as u16;
        let ym: u16 = (y & 15) as u16;
        let zm: u16 = (z & 15) as u16;
        Self { position: xm | (ym << 4) | (zm << 8), u, v }
    }

    /// The packed 16-bit position field.
    pub closed spec fn position_spec(self) -> u16 {
        self.position
    }

    /// The `u` texture index.
    pub closed spec fn u_spec(self) -> u8 {
        self.u
    }

    /// The `v` texture index.
    pub closed spec fn v_spec(self) -> u8 {
        self.v
    }

    /// Returns the packed 16-bit position field.
    pub fn position(&self) -> (r: u16)
        ensures
            r == self.position_spec(),
    {
        self.position
    }

    /// Returns the `u` texture index.
    pub fn u(&self) -> (r: u8)
        ensures
            r == self.u_spec(),
    {
        self.u
    }

    /// Returns the `v` texture index.
    pub fn v(&self) -> (r: u8)
        ensures
            r == self.v_spec(),
    {
        self.v
    }

    /// Recovers the x coordinate's low 4 bits from the packed field.
    pub fn decode_x(self) -> (r: u8)
        ensures
            r == unpack_x(self.position_spec()),
    {
        (self.position & 15) as u8
    }

    /// Recovers the y coordinate's low 4 bits from the packed field.
    pub fn decode_y(self) -> (r: u8)
        ensures
            r == unpack_y(self.position_spec()),
    {
        ((self.position >> 4) & 15) as u8
    }

    /// Recovers the z coordinate's low 4 bits from the packed field.
    pub fn decode_z(self) -> (r: u8)
        ensures
            r == unpack_z(self.position_spec()),
    {
        ((self.position >> 8) & 15) as u8
    }
}

/// True of the all-zero face record, used as a one-element placeholder
/// when an empty list must still yield an allocatable GPU buffer.
pub open spec fn is_zero_face(f: FaceData) -> bool {
    f.position_spec() == 0 && f.u_spec() == 0 && f.v_spec() == 0
}

impl Default for FaceData {
    /// The all-zero face record.
    fn default() -> (r: Self)
        ensures
            is_zero_face(r),
    {
        FaceData { position: 0, u: 0, v: 0 }
    }
}

/// The x nibble of a packed position word.
pub open spec fn unpack_x(p: u16) -> u8 {
    (p & 15) as u8
}

/// The y nibble of a packed position word.
pub open spec fn unpack_y(p: u16) -> u8 {
    ((p >> 4) & 15) as u8
}

/// The z nibble of a packed position word.
pub open spec fn unpack_z(p: u16) -> u8 {
    ((p >> 8) & 15) as u8
}

/// Law: encoding is deterministic. Two records packed from the same
/// inputs are the same record.
pub proof fn lemma_encode_deterministic(
    x: u8, y: u8, z: u8, u: u8, v: u8, r1: FaceData, r2: FaceData,
)
    requires
        r1.position_spec() == pack_position(x, y, z) && r1.u_spec() == u && r1.v_spec() == v,
        r2.position_spec() == pack_position(x, y, z) && r2.u_spec() == u && r2.v_spec() == v,
    ensures
        r1 == r2,
{
}

/// Law: the truncation round trip. Decoding a packed position recovers
/// exactly the low 4 bits of each coordinate, so coordinates at most 15
/// come back unchanged.
pub proof fn lemma_pack_unpack(x: u8, y: u8, z: u8)
    ensures
        unpack_x(pack_position(x, y, z)) == x & 15,
        unpack_y(pack_position(x, y, z)) == y & 15,
        unpack_z(pack_position(x, y, z)) == z & 15,
        x <= 15 ==> unpack_x(pack_position(x, y, z)) == x,
        y <= 15 ==> unpack_y(pack_position(x, y, z)) == y,
        z <= 15 ==> unpack_z(pack_position(x, y, z)) == z,
        pack_position(x, y, z) < 0x1000,
{
    assert(((((x & 15) as u16) | (((y & 15) as u16) << 4) | (((z & 15) as u16) << 8)) as u16)
        < 0x1000) by (bit_vector);
    assert((((((x & 15) as u16) | (((y & 15) as u16) << 4) | (((z & 15) as u16) << 8)) as u16)
        & 15) as u8 == x & 15) by (bit_vector);
    assert(((((((x & 15) as u16) | (((y & 15) as u16) << 4) | (((z & 15) as u16) << 8)) as u16)
        >> 4) & 15) as u8 == y & 15) by (bit_vector);
    assert(((((((x & 15) as u16) | (((y & 15) as u16) << 4) | (((z & 15) as u16) << 8)) as u16)
        >> 8) & 15) as u8 == z & 15) by (bit_vector);
    assert(x <= 15 ==> x & 15 == x) by (bit_vector);
    assert(y <= 15 ==> y & 15 == y) by (bit_vector);
    assert(z <= 15 ==> z & 15 == z) by (bit_vector);
}

} // verus!
