use vstd::prelude::*;

verus! {

/// A stored sample representation with an exact silence value.
pub trait PCM: Copy + Sized {
    /// The silence value, as the contracts see it.
    spec fn spec_equilibrium() -> Self;

    /// The silence value of this representation.
    fn pcm_equilibrium() -> (r: Self)
        ensures
            r == Self::spec_equilibrium(),
    ;
}

/// Largest magnitude of a 24-bit quantized sample: 2^23 - 1.
pub const U24_MAX_LEVEL: i32 = 8_388_607;

/// The value of the low 24 bits of `w`, read as a two's-complement signed number.
pub open spec fn sign_extend24(w: u32) -> int {
    let low = w as int % 0x100_0000;
    if low >= 0x80_0000 {
        low - 0x100_0000
    } else {
        low
    }
}

/// A 24-bit signed fixed-point sample packed into the low bits of a 32-bit word.
#[derive(Debug, Clone, Copy, PartialEq, Eq, Structural)]
pub struct U24(u32);

impl View for U24 {
    type V = u32;

    closed spec fn view(&self) -> u32 {
        self.0
    }
}

impl U24 {
    /// Wraps a raw 32-bit word.
    pub fn new(val: u32) -> (r: U24)
        ensures
            r@ == val,
    {
        U24(val)
    }

    /// The raw 32-bit word.
    pub fn inner(&self) -> (r: u32)
        ensures
            r == self@,
    {
        self.0
    }

    /// Stores the bit pattern of a quantized level (the last step of encoding a float).
    pub fn from_level(level: i32) -> (r: U24)
        ensures
            r@ == #[verifier::truncate] (level as u32),
    {
        U24(level as u32)
    }

    /// Sign-extends the low 24 bits (the first step of decoding to a float).
    pub fn level(&self) -> (r: i32)
        ensures
            r == sign_extend24(self@),
            -0x80_0000 <= r < 0x80_0000,
    {
        let w = self.0;
        let low = w & 0xFF_FFFF;
        assert(low == w % 0x100_0000) by (bit_vector)
            requires
                low == w & 0xFF_FFFF,
        ;
        if low >= 0x80_0000 {
            low as i32 - 0x100_0000
        } else {
            low as i32
        }
    }
}

impl PCM for U24 {
    closed spec fn spec_equilibrium() -> U24 {
        U24(0)
    }

    fn pcm_equilibrium() -> (r: U24) {
        U24(0)
    }
}

/// Storing a quantized level and sign-extending it again gives the level back, for every
/// level that a clamped sample can quantize to; the silence value is the zero word.
pub proof fn lemma_level_round_trip(level: i32)
    requires
        -U24_MAX_LEVEL <= level <= U24_MAX_LEVEL,
    ensures
        sign_extend24(#[verifier::truncate] (level as u32)) == level,
        U24::spec_equilibrium()@ == 0,
{
    let w: u32 = #[verifier::truncate] (level as u32);
    assert(w & 0xFF_FFFF == w % 0x100_0000) by (bit_vector);
    if level >= 0 {
        assert(w & 0xFF_FFFF == level as u32) by (bit_vector)
            requires
                w == #[verifier::truncate] (level as u32),
                0 <= level <= 8_388_607i32,
        ;
    } else {
        assert(w & 0xFF_FFFF == (level + 0x100_0000) as u32) by (bit_vector)
            requires
                w == #[verifier::truncate] (level as u32),
                -8_388_607i32 <= level < 0,
        ;
    }
}

} // verus!
