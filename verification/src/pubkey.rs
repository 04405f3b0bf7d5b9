//! Account addresses as plain 32-byte values, and the well-known program ids
//! that the programs' rules refer to.
use vstd::prelude::*;
use vstd::std_specs::cmp::PartialEqSpecImpl;

verus! {

broadcast use vstd::array::group_array_axioms;

/// A 32-byte account address.
#[derive(Clone, Copy, Debug)]
pub struct Pubkey {
    pub bytes: [u8; 32],
}

impl Pubkey {
    /// Builds an address from its raw bytes.
    pub fn new(bytes: [u8; 32]) -> (r: Pubkey)
        ensures
            r.bytes == bytes,
    {
        Pubkey { bytes }
    }

    /// The all-zero address, which is also what `Option::unwrap_or_default`
    /// gives for a missing address.
    pub fn default_key() -> (r: Pubkey)
        ensures
            r.is_zero(),
    {
        let r = Pubkey { bytes: [0u8; 32] };
        assert(r.bytes@ =~= Seq::new(32, |i: int| 0u8));
        r
    }

    /// Whether every byte of the address is zero.
    pub open spec fn is_zero(self) -> bool {
        self.bytes@ == Seq::new(32, |i: int| 0u8)
    }

    /// Byte-wise comparison of two addresses.
    pub fn equals(&self, other: &Pubkey) -> (r: bool)
        ensures
            r == (*self == *other),
    {
        let mut i: usize = 0;
        while i < 32
            invariant
                i <= 32,
                forall|j: int| 0 <= j < i ==> self.bytes@[j] == other.bytes@[j],
            decreases 32 - i,
        {
            if self.bytes[i] != other.bytes[i] {
                assert(self.bytes@[i as int] != other.bytes@[i as int]);
                return false;
            }
            i = i + 1;
        }
        assert(self.bytes =~= other.bytes);
        true
    }

    /// The address as a seed: its 32 bytes.
    pub fn to_seed(&self) -> (r: Vec<u8>)
        ensures
            r@ == self.bytes@,
    {
        let mut out: Vec<u8> = Vec::new();
        let mut i: usize = 0;
        while i < 32
            invariant
                i <= 32,
                out@ == self.bytes@.take(i as int),
            decreases 32 - i,
        {
            out.push(self.bytes[i]);
            i = i + 1;
            assert(out@ =~= self.bytes@.take(i as int));
        }
        assert(self.bytes@.take(32) =~= self.bytes@);
        out
    }
}

impl PartialEq for Pubkey {
    fn eq(&self, other: &Pubkey) -> (r: bool) {
        self.equals(other)
    }
}

impl PartialEqSpecImpl for Pubkey {
    open spec fn obeys_eq_spec() -> bool {
        true
    }

    open spec fn eq_spec(&self, other: &Pubkey) -> bool {
        *self == *other
    }
}

impl Eq for Pubkey {}

} // verus!

verus! {

/// The vault program that the transfer hook trusts
/// (`2QK2ci1dZJNLnE9woHaUa9kgeLXHLhGa6er5QySykV4k`).
pub const VAULT_PROGRAM_ID: [u8; 32] = [
    20, 212, 110, 0, 153, 239, 48, 188, 81, 197, 207, 36, 86, 4, 101, 238,
    195, 144, 14, 16, 2, 163, 10, 10, 118, 165, 86, 73, 72, 122, 135, 33,
];

/// The Token-2022 program (`TokenzQdBNbLqP5VEhdkAS6EPFLC1PHnBqCXEpPxuEb`).
pub const TOKEN_2022_PROGRAM_ID: [u8; 32] = [
    6, 221, 246, 225, 238, 117, 143, 222, 24, 66, 93, 188, 228, 108, 205, 218,
    182, 26, 252, 77, 131, 185, 13, 39, 254, 189, 249, 40, 216, 161, 139, 252,
];

/// The classic SPL token program (`TokenkegQfeZyiNwAJbNbGKPFXCWuBvf9Ss623VQ5DA`).
pub const TOKEN_PROGRAM_ID: [u8; 32] = [
    6, 221, 246, 225, 215, 101, 161, 147, 217, 203, 225, 70, 206, 235, 121, 172,
    28, 180, 133, 237, 95, 91, 55, 145, 58, 140, 245, 133, 126, 255, 0, 169,
];

/// The associated token account program (`ATokenGPvbdGVxr1b2hvZbsiqW5xWH25efTNsLJA8knL`).
pub const ASSOCIATED_TOKEN_PROGRAM_ID: [u8; 32] = [
    140, 151, 37, 143, 78, 36, 137, 241, 187, 61, 16, 41, 20, 142, 13, 131,
    11, 90, 19, 153, 218, 255, 16, 132, 4, 142, 123, 216, 219, 233, 248, 89,
];

/// The system program, whose address is all zeros.
pub const SYSTEM_PROGRAM_ID: [u8; 32] = [
    0, 0, 0, 0, 0, 0, 0, 0, 0, 0, 0, 0, 0, 0, 0, 0,
    0, 0, 0, 0, 0, 0, 0, 0, 0, 0, 0, 0, 0, 0, 0, 0,
];

/// Whether `key` is one of the two token programs that SPL instruction
/// builders accept.
pub open spec fn is_token_program(key: Pubkey) -> bool {
    key.bytes@ == TOKEN_2022_PROGRAM_ID@ || key.bytes@ == TOKEN_PROGRAM_ID@
}

} // verus!
