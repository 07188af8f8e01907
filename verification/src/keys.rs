//! Signing keys and signatures.

use crate::address::{address_option, Address};
use solana_sdk::signature::Keypair;
use solana_sdk::signer::Signer;
use vstd::prelude::*;

verus! {

/// What `Keypair::try_from` and `Signer::pubkey` make of the bytes of a
/// key pair: the address of its public half, or `None` where the bytes
/// hold no consistent key pair.
pub uninterp spec fn spec_keypair_address(key: Seq<u8>) -> Option<Seq<u8>>;

/// The 64 bytes that `Signer::sign_message` returns for a message under
/// the key pair that `Keypair::new_from_array` makes of 32 secret bytes.
pub uninterp spec fn spec_signature(secret: Seq<u8>, message: Seq<u8>) -> Seq<u8>;

/// A 64-byte signature. Its view is the sequence of its bytes.
#[derive(Clone, Copy, Debug, PartialEq, Eq)]
pub struct Signature {
    pub bytes: [u8; 64],
}

impl View for Signature {
    type V = Seq<u8>;

    open spec fn view(&self) -> Seq<u8> {
        self.bytes@
    }
}

/// Calls `Keypair::try_from` on the bytes and `Signer::pubkey` on the key
/// pair it returns. The first fails where the bytes are too short or
/// their two halves do not belong together. The contract names the
/// outcome.
#[verifier::external_body]
fn keypair_address(bytes: &[u8; 64]) -> (res: Option<Address>)
    ensures
        address_option(res) == spec_keypair_address(bytes@),
{
    match Keypair::try_from(&bytes[..]) {
        Ok(pair) => Some(Address { bytes: pair.pubkey().to_bytes() }),
        Err(_) => None,
    }
}

/// Calls `Keypair::new_from_array` on the secret bytes, which takes any
/// 32 bytes and derives the public half from them, and
/// `Signer::sign_message` on the key pair it returns. The contract names
/// the signature: the signing scheme draws no randomness.
#[verifier::external_body]
fn sign_with(secret: &[u8; 32], message: &[u8]) -> (res: Signature)
    ensures
        res@ == spec_signature(secret@, message@),
{
    Signature { bytes: Keypair::new_from_array(*secret).sign_message(message).into() }
}

/// The secret half of the bytes of a key pair.
pub open spec fn secret_half(key: Seq<u8>) -> Seq<u8> {
    key.subrange(0, 32)
}

/// A signing key pair: 64 bytes, the secret half first, that hold a
/// consistent key pair, together with the address of the public half.
#[derive(Clone, Copy, Debug)]
pub struct KeyPair {
    bytes: [u8; 64],
    address: Address,
}

impl View for KeyPair {
    type V = Seq<u8>;

    closed spec fn view(&self) -> Seq<u8> {
        self.bytes@
    }
}

impl KeyPair {
    #[verifier::type_invariant]
    spec fn consistent(self) -> bool {
        spec_keypair_address(self.bytes@) == Some(self.address@)
    }

    /// The address that the key pair signs for.
    pub closed spec fn spec_address(&self) -> Seq<u8> {
        self.address@
    }

    /// Loads a key pair from its 64 bytes. Fails where the slice has
    /// another length or holds no consistent key pair.
    pub fn from_bytes(bytes: &[u8]) -> (res: Option<KeyPair>)
        ensures
            res is Some <==> bytes@.len() == 64 && spec_keypair_address(bytes@) is Some,
            res matches Some(key) ==> key@ == bytes@ && spec_keypair_address(bytes@) == Some(
                key.spec_address(),
            ),
    {
        if bytes.len() != 64 {
            return None;
        }
        let mut out: [u8; 64] = [0u8; 64];
        let mut i: usize = 0;
        while i < 64
            invariant
                i <= 64,
                bytes@.len() == 64,
                forall|j: int| 0 <= j < i ==> out@[j] == bytes@[j],
            decreases 64 - i,
        {
            out[i] = bytes[i];
            i += 1;
        }
        assert(out@ =~= bytes@);
        match keypair_address(&out) {
            Some(address) => Some(KeyPair { bytes: out, address }),
            None => None,
        }
    }

    /// The address that the key pair signs for.
    pub fn address(&self) -> (a: Address)
        ensures
            a@ == self.spec_address(),
            spec_keypair_address(self@) == Some(a@),
    {
        proof {
            use_type_invariant(self);
        }
        self.address
    }

    /// The 64 bytes of the key pair.
    pub fn to_bytes(&self) -> (bytes: [u8; 64])
        ensures
            bytes@ == self@,
    {
        self.bytes
    }

    /// Signs a message with the secret half of the key pair.
    pub fn sign(&self, message: &[u8]) -> (s: Signature)
        ensures
            s@ == spec_signature(secret_half(self@), message@),
    {
        let mut secret: [u8; 32] = [0u8; 32];
        let mut i: usize = 0;
        while i < 32
            invariant
                i <= 32,
                forall|j: int| 0 <= j < i ==> secret@[j] == self.bytes@[j],
            decreases 32 - i,
        {
            secret[i] = self.bytes[i];
            i += 1;
        }
        assert(secret@ =~= secret_half(self@));
        sign_with(&secret, message)
    }
}

} // verus!
