//! Program-derived addresses.

use crate::address::{address_option, Address};
use solana_sdk::pubkey::Pubkey;
use vstd::prelude::*;

verus! {

/// The largest disambiguation byte, tried first.
pub const MAX_BUMP: u8 = 255;

/// The smallest disambiguation byte that is tried. Byte 0 is left out,
/// as it is by the programs that look the same addresses up on chain.
pub const MIN_BUMP: u8 = 1;

/// What `Pubkey::create_program_address` makes of a list of seeds and a
/// program's address: the candidate address, or `None` where it rejects
/// the seeds.
pub uninterp spec fn spec_program_address(seeds: Seq<Seq<u8>>, program: Seq<u8>) -> Option<Seq<u8>>;

/// Whether `Pubkey::is_on_curve` holds of an address: whether its bytes
/// encode a point of the signing curve, so that a key pair could own it.
pub uninterp spec fn spec_on_curve(address: Seq<u8>) -> bool;

/// Calls `Pubkey::create_program_address`, which hashes the seeds, the
/// program's address and a fixed marker, and returns an error where a
/// seed is out of shape or the hash lies on the signing curve. The
/// contract names the outcome, and claims that an address that comes back
/// is off the curve, as that last test in the source shows.
#[verifier::external_body]
fn program_address(seeds: &Vec<Vec<u8>>, program: &Address) -> (res: Option<Address>)
    ensures
        address_option(res) == spec_program_address(seeds.deep_view(), program@),
        res matches Some(a) ==> !spec_on_curve(a@),
{
    let parts: Vec<&[u8]> = seeds.iter().map(|seed| seed.as_slice()).collect();
    match Pubkey::create_program_address(&parts, &Pubkey::new_from_array(program.bytes)) {
        Ok(key) => Some(Address { bytes: key.to_bytes() }),
        Err(_) => None,
    }
}

/// Calls `Pubkey::is_on_curve`, which tests whether the bytes decompress
/// to a point of the signing curve. The contract names the answer.
#[verifier::external_body]
fn on_curve(address: &Address) -> (res: bool)
    ensures
        res == spec_on_curve(address@),
{
    Pubkey::new_from_array(address.bytes).is_on_curve()
}

/// A derived address with the disambiguation byte that produced it.
#[derive(Clone, Copy, Debug, PartialEq, Eq)]
pub struct DerivedAddress {
    pub address: Address,
    pub bump: u8,
}

/// No disambiguation byte yields an address for the seeds.
#[derive(Clone, Copy, Debug, PartialEq, Eq)]
pub struct DerivationExhausted;

/// The candidate that the seeds, followed by one disambiguation byte, give
/// under a program.
pub open spec fn candidate(seeds: Seq<Seq<u8>>, bump: u8, program: Seq<u8>) -> Option<Seq<u8>> {
    spec_program_address(seeds.push(seq![bump]), program)
}

/// `address` is the candidate of `bump`, and every larger byte has none.
pub open spec fn is_derivation(
    seeds: Seq<Seq<u8>>,
    program: Seq<u8>,
    address: Seq<u8>,
    bump: u8,
) -> bool {
    &&& MIN_BUMP <= bump
    &&& candidate(seeds, bump, program) == Some(address)
    &&& forall|b: u8| bump < b ==> (#[trigger] candidate(seeds, b, program)) is None
}

/// No byte from `MAX_BUMP` down to `MIN_BUMP` has a candidate.
pub open spec fn is_exhausted(seeds: Seq<Seq<u8>>, program: Seq<u8>) -> bool {
    forall|b: u8| MIN_BUMP <= b ==> (#[trigger] candidate(seeds, b, program)) is None
}

/// What `derive_with_seeds` returns for the seeds and the program.
pub open spec fn derive_outcome(
    seeds: Seq<Seq<u8>>,
    program: Seq<u8>,
    res: Result<DerivedAddress, DerivationExhausted>,
) -> bool {
    match res {
        Ok(derived) => is_derivation(seeds, program, derived.address@, derived.bump),
        Err(_) => is_exhausted(seeds, program),
    }
}

/// The derived address of the seeds under the program, if there is one.
pub open spec fn derived_address(seeds: Seq<Seq<u8>>, program: Seq<u8>) -> Option<Seq<u8>> {
    if exists|address: Seq<u8>, bump: u8| is_derivation(seeds, program, address, bump) {
        let (address, bump) = choose|address: Seq<u8>, bump: u8|
            is_derivation(seeds, program, address, bump);
        Some(address)
    } else {
        None
    }
}

/// The address of an outcome of `derive_with_seeds` is the derived
/// address of the seeds, and a failure means that there is none.
pub proof fn outcome_is_the_derived_address(
    seeds: Seq<Seq<u8>>,
    program: Seq<u8>,
    res: Result<DerivedAddress, DerivationExhausted>,
)
    requires
        derive_outcome(seeds, program, res),
    ensures
        derived_address(seeds, program) == match res {
            Ok(derived) => Some(derived.address@),
            Err(_) => None,
        },
{
    match res {
        Ok(derived) => {
            assert(is_derivation(seeds, program, derived.address@, derived.bump));
            let (address, bump) = choose|address: Seq<u8>, bump: u8|
                is_derivation(seeds, program, address, bump);
            if bump < derived.bump {
                assert(candidate(seeds, derived.bump, program) is None);
            } else if derived.bump < bump {
                assert(candidate(seeds, bump, program) is None);
            }
        },
        Err(_) => {
            if exists|address: Seq<u8>, bump: u8| is_derivation(seeds, program, address, bump) {
                let (address, bump) = choose|address: Seq<u8>, bump: u8|
                    is_derivation(seeds, program, address, bump);
                assert(candidate(seeds, bump, program) is None);
            }
        },
    }
}

/// An address is a function of the seeds and the program alone: two
/// outcomes that both meet the contract of `derive_with_seeds` agree on
/// success, on the address and on the disambiguation byte.
pub proof fn derivation_is_deterministic(
    seeds: Seq<Seq<u8>>,
    program: Seq<u8>,
    first: Result<DerivedAddress, DerivationExhausted>,
    second: Result<DerivedAddress, DerivationExhausted>,
)
    requires
        derive_outcome(seeds, program, first),
        derive_outcome(seeds, program, second),
    ensures
        first is Ok <==> second is Ok,
        first matches Ok(a) ==> second matches Ok(b) && a.bump == b.bump && a.address@ == b.address@,
{
    match (first, second) {
        (Ok(a), Ok(b)) => {
            if a.bump < b.bump {
                assert(candidate(seeds, b.bump, program) is None);
            } else if b.bump < a.bump {
                assert(candidate(seeds, a.bump, program) is None);
            }
        },
        (Ok(a), Err(_)) => {
            assert(candidate(seeds, a.bump, program) is None);
        },
        (Err(_), Ok(b)) => {
            assert(candidate(seeds, b.bump, program) is None);
        },
        (Err(_), Err(_)) => {},
    }
}

/// Copies a list of seeds.
fn copy_seeds(seeds: &Vec<Vec<u8>>) -> (out: Vec<Vec<u8>>)
    ensures
        out.deep_view() == seeds.deep_view(),
{
    let mut out: Vec<Vec<u8>> = Vec::new();
    let mut i: usize = 0;
    while i < seeds.len()
        invariant
            i <= seeds.len(),
            out@.len() == i,
            forall|j: int| 0 <= j < i ==> out@[j]@ == seeds@[j]@,
        decreases seeds.len() - i,
    {
        let seed = &seeds[i];
        let mut copy: Vec<u8> = Vec::new();
        let mut k: usize = 0;
        while k < seed.len()
            invariant
                k <= seed.len(),
                copy@.len() == k,
                forall|j: int| 0 <= j < k ==> copy@[j] == seed@[j],
            decreases seed.len() - k,
        {
            copy.push(seed[k]);
            k += 1;
        }
        assert(copy@ =~= seed@);
        out.push(copy);
        i += 1;
    }
    assert(out.deep_view() =~~= seeds.deep_view());
    out
}

/// Derives the program-owned address of a list of seeds: tries the
/// disambiguation bytes from `MAX_BUMP` down to `MIN_BUMP` and returns the
/// first candidate that exists, with its byte. The address lies off the
/// signing curve. Fails exactly when no byte has a candidate.
pub fn derive_with_seeds(seeds: &Vec<Vec<u8>>, owner_program: &Address) -> (res: Result<
    DerivedAddress,
    DerivationExhausted,
>)
    ensures
        derive_outcome(seeds.deep_view(), owner_program@, res),
        res matches Ok(derived) ==> !spec_on_curve(derived.address@),
{
    let ghost given = seeds.deep_view();
    let mut parts = copy_seeds(seeds);
    let n = parts.len();
    parts.push(vec![MAX_BUMP]);
    let mut bump: u8 = MAX_BUMP;
    while bump >= MIN_BUMP
        invariant
            given == seeds.deep_view(),
            n == given.len(),
            parts@.len() == n + 1,
            forall|j: int| 0 <= j < n ==> parts@[j]@ == given[j],
            forall|b: u8| bump < b ==> (#[trigger] candidate(given, b, owner_program@)) is None,
        decreases bump,
    {
        parts.set(n, vec![bump]);
        assert(parts.deep_view() =~~= given.push(seq![bump]));
        match program_address(&parts, owner_program) {
            Some(address) => {
                return Ok(DerivedAddress { address, bump });
            },
            None => {},
        }
        bump -= 1;
    }
    Err(DerivationExhausted)
}

/// Derives the program-owned address of one seed under `owner_program`.
pub fn derive(seed_bytes: &[u8], owner_program: &Address) -> (res: Result<
    DerivedAddress,
    DerivationExhausted,
>)
    ensures
        derive_outcome(seq![seed_bytes@], owner_program@, res),
        res matches Ok(derived) ==> !spec_on_curve(derived.address@),
{
    let mut seed: Vec<u8> = Vec::new();
    let mut k: usize = 0;
    while k < seed_bytes.len()
        invariant
            k <= seed_bytes.len(),
            seed@.len() == k,
            forall|j: int| 0 <= j < k ==> seed@[j] == seed_bytes@[j],
        decreases seed_bytes.len() - k,
    {
        seed.push(seed_bytes[k]);
        k += 1;
    }
    assert(seed@ =~= seed_bytes@);
    let mut seeds: Vec<Vec<u8>> = Vec::new();
    seeds.push(seed);
    assert(seeds.deep_view() =~~= seq![seed_bytes@]);
    derive_with_seeds(&seeds, owner_program)
}

/// Whether an address lies on the signing curve.
pub fn is_on_curve(address: &Address) -> (res: bool)
    ensures
        res == spec_on_curve(address@),
{
    on_curve(address)
}

/// The address of a result, as plain values.
pub open spec fn address_result(res: Result<Address, DerivationExhausted>) -> Option<Seq<u8>> {
    match res {
        Ok(address) => Some(address@),
        Err(_) => None,
    }
}

/// The seeds of an owner's token account for a mint: the owner, the token
/// program and the mint.
pub open spec fn token_account_seeds(owner: Seq<u8>, mint: Seq<u8>) -> Seq<Seq<u8>> {
    seq![owner, crate::address::TOKEN_PROGRAM_BYTES@, mint]
}

/// Derives the address of the token account that holds `owner`'s balance
/// of `mint`: the derived address of the owner, the token program and the
/// mint under the associated-token-account program.
pub fn derive_associated_token_address(owner: &Address, mint: &Address) -> (res: Result<
    Address,
    DerivationExhausted,
>)
    ensures
        address_result(res) == derived_address(
            token_account_seeds(owner@, mint@),
            crate::address::ASSOCIATED_TOKEN_PROGRAM_BYTES@,
        ),
        res matches Ok(address) ==> !spec_on_curve(address@),
{
    let mut seeds: Vec<Vec<u8>> = Vec::new();
    seeds.push(owner.to_vec());
    seeds.push(Address::token_program().to_vec());
    seeds.push(mint.to_vec());
    assert(seeds.deep_view() =~~= token_account_seeds(owner@, mint@));
    let program = Address::associated_token_program();
    let outcome = derive_with_seeds(&seeds, &program);
    proof {
        outcome_is_the_derived_address(seeds.deep_view(), program@, outcome);
    }
    match outcome {
        Ok(derived) => Ok(derived.address),
        Err(e) => Err(e),
    }
}

} // verus!
