use vstd::prelude::*;

verus! {

/// A register cell's value, of some fixed width, that carries a byte of flags
/// in its low bits.
pub trait Register: Sized + Copy {
    /// The byte held in the low bits.
    spec fn spec_val(self) -> u8;

    /// The value that holds byte `b`.
    spec fn spec_from_byte(b: u8) -> Self;

    /// Making a value from a byte and reading it back gives that byte.
    proof fn lemma_from_byte_val(b: u8)
        ensures
            Self::spec_from_byte(b).spec_val() == b,
    ;

    /// Makes the value that holds byte `b`.
    fn from_byte(b: u8) -> (r: Self)
        ensures
            r == Self::spec_from_byte(b),
    ;

    /// Reads back the byte held in the low bits.
    fn val(self) -> (r: u8)
        ensures
            r == self.spec_val(),
    ;
}

impl Register for u8 {
    open spec fn spec_val(self) -> u8 {
        self
    }

    open spec fn spec_from_byte(b: u8) -> u8 {
        b
    }

    proof fn lemma_from_byte_val(b: u8) {
    }

    fn from_byte(b: u8) -> (r: u8) {
        b
    }

    fn val(self) -> (r: u8) {
        self
    }
}

impl Register for u16 {
    open spec fn spec_val(self) -> u8 {
        self as u8
    }

    open spec fn spec_from_byte(b: u8) -> u16 {
        b as u16
    }

    proof fn lemma_from_byte_val(b: u8) {
        assert((b as u16) as u8 == b) by (bit_vector);
    }

    fn from_byte(b: u8) -> (r: u16) {
        b as u16
    }

    fn val(self) -> (r: u8) {
        #[verifier::truncate]
        (self as u8)
    }
}

impl Register for u32 {
    open spec fn spec_val(self) -> u8 {
        self as u8
    }

    open spec fn spec_from_byte(b: u8) -> u32 {
        b as u32
    }

    proof fn lemma_from_byte_val(b: u8) {
        assert((b as u32) as u8 == b) by (bit_vector);
    }

    fn from_byte(b: u8) -> (r: u32) {
        b as u32
    }

    fn val(self) -> (r: u8) {
        #[verifier::truncate]
        (self as u8)
    }
}

} // verus!
