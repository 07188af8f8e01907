//! Fixed-length account addresses.

use solana_sdk::pubkey::Pubkey;
use std::str::FromStr;
use vstd::prelude::*;

verus! {

/// The bytes of the system program's address.
pub const SYSTEM_PROGRAM_BYTES: [u8; 32] = [
    0, 0, 0, 0, 0, 0, 0, 0, 0, 0, 0, 0, 0, 0, 0, 0,
    0, 0, 0, 0, 0, 0, 0, 0, 0, 0, 0, 0, 0, 0, 0, 0,
];

/// The bytes of the rent sysvar's address.
pub const RENT_SYSVAR_BYTES: [u8; 32] = [
    6, 167, 213, 23, 25, 44, 92, 81, 33, 140, 201, 76, 61, 74, 241, 127,
    88, 218, 238, 8, 155, 161, 253, 68, 227, 219, 217, 138, 0, 0, 0, 0,
];

/// The bytes of the token program's address.
pub const TOKEN_PROGRAM_BYTES: [u8; 32] = [
    6, 221, 246, 225, 215, 101, 161, 147, 217, 203, 225, 70, 206, 235, 121, 172,
    28, 180, 133, 237, 95, 91, 55, 145, 58, 140, 245, 133, 126, 255, 0, 169,
];

/// The bytes of the associated-token-account program's address.
pub const ASSOCIATED_TOKEN_PROGRAM_BYTES: [u8; 32] = [
    140, 151, 37, 143, 78, 36, 137, 241, 187, 61, 16, 41, 20, 142, 13, 131,
    11, 90, 19, 153, 218, 255, 16, 132, 4, 142, 123, 216, 219, 233, 248, 89,
];

/// A 32-byte account address. Its view is the sequence of its bytes.
#[derive(Clone, Copy, Debug, PartialEq, Eq, Hash)]
pub struct Address {
    pub bytes: [u8; 32],
}

impl View for Address {
    type V = Seq<u8>;

    open spec fn view(&self) -> Seq<u8> {
        self.bytes@
    }
}

/// The view of an optional address.
pub open spec fn address_option(a: Option<Address>) -> Option<Seq<u8>> {
    match a {
        Some(address) => Some(address@),
        None => None,
    }
}

/// What `Pubkey::from_str` decodes a text to: the 32 bytes of the address
/// that the text spells in base58, or `None` where it spells no address.
pub uninterp spec fn spec_parse_address(text: Seq<char>) -> Option<Seq<u8>>;

/// Calls `Pubkey::from_str`, which decodes base58 text into 32 bytes and
/// returns an error for any other text. The contract names the outcome
/// and claims nothing else of it.
#[verifier::external_body]
fn decode_base58(text: &str) -> (res: Option<Address>)
    ensures
        address_option(res) == spec_parse_address(text@),
{
    match Pubkey::from_str(text) {
        Ok(key) => Some(Address { bytes: key.to_bytes() }),
        Err(_) => None,
    }
}

impl Address {
    /// Wraps 32 bytes as an address.
    pub fn new(bytes: [u8; 32]) -> (a: Address)
        ensures
            a.bytes == bytes,
            a@ == bytes@,
    {
        Address { bytes }
    }

    /// Copies an address out of a byte slice, which must hold exactly 32
    /// bytes.
    pub fn from_slice(bytes: &[u8]) -> (res: Option<Address>)
        ensures
            res is Some <==> bytes@.len() == 32,
            res matches Some(a) ==> a@ == bytes@,
    {
        if bytes.len() != 32 {
            return None;
        }
        let mut out: [u8; 32] = [0u8; 32];
        let mut i: usize = 0;
        while i < 32
            invariant
                i <= 32,
                bytes@.len() == 32,
                forall|j: int| 0 <= j < i ==> out@[j] == bytes@[j],
            decreases 32 - i,
        {
            out[i] = bytes[i];
            i += 1;
        }
        assert(out@ =~= bytes@);
        Some(Address { bytes: out })
    }

    /// The address as a fresh vector of its 32 bytes.
    pub fn to_vec(&self) -> (v: Vec<u8>)
        ensures
            v@ == self@,
    {
        let mut v: Vec<u8> = Vec::new();
        let mut i: usize = 0;
        while i < 32
            invariant
                i <= 32,
                v@.len() == i,
                forall|j: int| 0 <= j < i ==> v@[j] == self.bytes@[j],
            decreases 32 - i,
        {
            v.push(self.bytes[i]);
            i += 1;
        }
        assert(v@ =~= self@);
        v
    }

    /// Whether two addresses hold the same bytes.
    pub fn same_as(&self, other: &Address) -> (b: bool)
        ensures
            b == (self@ == other@),
            b == (*self == *other),
    {
        let mut i: usize = 0;
        while i < 32
            invariant
                i <= 32,
                forall|j: int| 0 <= j < i ==> self.bytes@[j] == other.bytes@[j],
            decreases 32 - i,
        {
            if self.bytes[i] != other.bytes[i] {
                return false;
            }
            i += 1;
        }
        assert(self.bytes@ =~= other.bytes@);
        assert(self.bytes =~= other.bytes);
        true
    }

    /// Decodes an address from its base58 text.
    pub fn parse(text: &str) -> (res: Option<Address>)
        ensures
            address_option(res) == spec_parse_address(text@),
    {
        decode_base58(text)
    }

    /// The system program.
    pub fn system_program() -> (a: Address)
        ensures
            a@ == SYSTEM_PROGRAM_BYTES@,
    {
        Address { bytes: SYSTEM_PROGRAM_BYTES }
    }

    /// The rent sysvar.
    pub fn rent_sysvar() -> (a: Address)
        ensures
            a@ == RENT_SYSVAR_BYTES@,
    {
        Address { bytes: RENT_SYSVAR_BYTES }
    }

    /// The token program.
    pub fn token_program() -> (a: Address)
        ensures
            a@ == TOKEN_PROGRAM_BYTES@,
    {
        Address { bytes: TOKEN_PROGRAM_BYTES }
    }

    /// The associated-token-account program.
    pub fn associated_token_program() -> (a: Address)
        ensures
            a@ == ASSOCIATED_TOKEN_PROGRAM_BYTES@,
    {
        Address { bytes: ASSOCIATED_TOKEN_PROGRAM_BYTES }
    }
}

} // verus!
