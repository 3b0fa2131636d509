use vstd::prelude::*;

verus! {

/// Bit of the N (negative) flag in the packed status byte.
pub const N: u8 = 0x80;
/// Bit of the V (overflow) flag.
pub const V: u8 = 0x40;
/// Bit that is always set when the status byte is externalized.
pub const UNUSED: u8 = 0x20;
/// Bit of the B (break) flag.
pub const B: u8 = 0x10;
/// Bit of the D (decimal) flag.
pub const D: u8 = 0x08;
/// Bit of the I (interrupt disable) flag.
pub const I: u8 = 0x04;
/// Bit of the Z (zero) flag.
pub const Z: u8 = 0x02;
/// Bit of the C (carry) flag.
pub const C: u8 = 0x01;

/// The seven flags of the processor status register.
#[derive(Copy, Clone, Debug, PartialEq, Eq, Structural)]
pub struct StatusRegister {
    /// negative flag
    pub n: bool,
    /// overflow flag
    pub v: bool,
    /// break flag
    pub b: bool,
    /// decimal flag (settable, ignored by arithmetic)
    pub d: bool,
    /// interrupt disable flag
    pub i: bool,
    /// zero flag
    pub z: bool,
    /// carry flag
    pub c: bool,
}

pub open spec fn flag_bit(set: bool, mask: u8) -> u8 {
    if set { mask } else { 0 }
}

/// The packed byte `N V 1 B D I Z C`.
pub open spec fn pack(p: StatusRegister) -> u8 {
    flag_bit(p.n, N) | flag_bit(p.v, V) | UNUSED | flag_bit(p.b, B) | flag_bit(p.d, D)
        | flag_bit(p.i, I) | flag_bit(p.z, Z) | flag_bit(p.c, C)
}

/// The flags read back from a packed byte.
pub open spec fn unpack(byte: u8) -> StatusRegister {
    StatusRegister {
        n: byte & N == N,
        v: byte & V == V,
        b: byte & B == B,
        d: byte & D == D,
        i: byte & I == I,
        z: byte & Z == Z,
        c: byte & C == C,
    }
}

fn bit_if(set: bool, mask: u8) -> (r: u8)
    ensures
        r == flag_bit(set, mask),
{
    if set {
        mask
    } else {
        0
    }
}

impl StatusRegister {
    /// All flags clear.
    pub fn new() -> (r: StatusRegister)
        ensures
            r == unpack(0),
    {
        proof {
            assert(0u8 & N != N && 0u8 & V != V && 0u8 & B != B && 0u8 & D != D) by (bit_vector);
            assert(0u8 & I != I && 0u8 & Z != Z && 0u8 & C != C) by (bit_vector);
        }
        StatusRegister { n: false, v: false, b: false, d: false, i: false, z: false, c: false }
    }

    /// The status register as a byte, with the unused bit 5 always set.
    pub fn to_byte(&self) -> (r: u8)
        ensures
            r == pack(*self),
    {
        bit_if(self.n, N) | bit_if(self.v, V) | UNUSED | bit_if(self.b, B) | bit_if(self.d, D)
            | bit_if(self.i, I) | bit_if(self.z, Z) | bit_if(self.c, C)
    }

    /// Loads all seven flags from a byte; bit 5 is ignored.
    pub fn set_from_byte(&mut self, p: u8)
        ensures
            *final(self) == unpack(p),
    {
        self.n = p & N == N;
        self.v = p & V == V;
        self.b = p & B == B;
        self.d = p & D == D;
        self.i = p & I == I;
        self.z = p & Z == Z;
        self.c = p & C == C;
    }
}

/// Unpacking a packed status register gives back the same seven flags.
pub proof fn lemma_pack_unpack(p: StatusRegister)
    ensures
        unpack(pack(p)) == p,
{
    let (n, v, b, d, i, z, c) = (
        flag_bit(p.n, N),
        flag_bit(p.v, V),
        flag_bit(p.b, B),
        flag_bit(p.d, D),
        flag_bit(p.i, I),
        flag_bit(p.z, Z),
        flag_bit(p.c, C),
    );
    let x = pack(p);
    assert(x == n | v | UNUSED | b | d | i | z | c);
    assert((n == N || n == 0) && (v == V || v == 0) && (b == B || b == 0) && (d == D || d == 0));
    assert((i == I || i == 0) && (z == Z || z == 0) && (c == C || c == 0));
    assert(
        (x & N == N <==> n == N) && (x & V == V <==> v == V) && (x & B == B <==> b == B)
        && (x & D == D <==> d == D) && (x & I == I <==> i == I) && (x & Z == Z <==> z == Z)
        && (x & C == C <==> c == C)
    ) by (bit_vector)
        requires
            x == n | v | UNUSED | b | d | i | z | c,
            n == N || n == 0,
            v == V || v == 0,
            b == B || b == 0,
            d == D || d == 0,
            i == I || i == 0,
            z == Z || z == 0,
            c == C || c == 0,
    ;
}

impl Default for StatusRegister {
    fn default() -> (r: StatusRegister)
        ensures
            r == unpack(0),
    {
        StatusRegister::new()
    }
}

} // verus!
