use pool_admin::address::Address;
use pool_admin::derivation;
use pool_admin::derivation::{derive_associated_token_address, derive_with_seeds, is_on_curve};
use solana_sdk::pubkey::Pubkey;
use std::str::FromStr;

fn program() -> Address {
    Address::new(
        Pubkey::from_str("3Qvevpr9VQp7ECWjAU186oiSGjMhDucjU32oSX8BfxGK")
            .unwrap()
            .to_bytes(),
    )
}

#[test]
fn derive_agrees_with_the_search_of_the_network_library() {
    let seed = b"amm_config_account_seed";
    let derived = derivation::derive(seed, &program()).unwrap();
    let (expected, bump) =
        Pubkey::find_program_address(&[seed], &Pubkey::new_from_array(program().bytes));
    assert_eq!(derived.address.bytes, expected.to_bytes());
    assert_eq!(derived.bump, bump);
}

#[test]
fn derive_is_deterministic() {
    let first = derivation::derive(b"amm authority", &program());
    let second = derivation::derive(b"amm authority", &program());
    assert_eq!(first, second);
    assert!(first.is_ok());
}

#[test]
fn derived_address_is_off_curve() {
    let derived = derivation::derive(b"amm authority", &program()).unwrap();
    assert!(!is_on_curve(&derived.address));
    assert!(!Pubkey::new_from_array(derived.address.bytes).is_on_curve());
}

#[test]
fn derive_fails_on_a_seed_that_is_too_long() {
    let seed = [7u8; 33];
    assert!(derivation::derive(&seed, &program()).is_err());
    assert!(Pubkey::try_find_program_address(&[&seed], &Pubkey::new_from_array(program().bytes))
        .is_none());
}

#[test]
fn derive_with_several_seeds_agrees_with_the_network_library() {
    let seeds = vec![b"abc".to_vec(), vec![], vec![1u8; 32]];
    let derived = derive_with_seeds(&seeds, &program()).unwrap();
    let (expected, bump) = Pubkey::find_program_address(
        &[b"abc", &[], &[1u8; 32]],
        &Pubkey::new_from_array(program().bytes),
    );
    assert_eq!(derived.address.bytes, expected.to_bytes());
    assert_eq!(derived.bump, bump);
}

#[test]
fn associated_token_address_agrees_with_the_token_library() {
    let owner = Pubkey::from_str("4Nd1mBQtrMJVYVfKf2PJy9NZUZdTAsp7D4xWLs4gDB4T").unwrap();
    let mint = Pubkey::from_str("So11111111111111111111111111111111111111112").unwrap();
    let expected = spl_associated_token_account::get_associated_token_address(&owner, &mint);
    let address = derive_associated_token_address(
        &Address::new(owner.to_bytes()),
        &Address::new(mint.to_bytes()),
    )
    .unwrap();
    assert_eq!(address.bytes, expected.to_bytes());
}

#[test]
fn derive_returns_the_largest_byte_that_has_a_candidate() {
    let program_key = Pubkey::new_from_array(program().bytes);
    for seed in [&b"a"[..], &b"b"[..], &b"vault"[..], &b"amm authority"[..], &b""[..], &b"zz9"[..]] {
        let derived = derivation::derive(seed, &program()).unwrap();
        assert!(derived.bump >= 1);
        let own = Pubkey::create_program_address(&[seed, &[derived.bump]], &program_key).unwrap();
        assert_eq!(own.to_bytes(), derived.address.bytes);
        let mut larger = derived.bump;
        while larger < 255 {
            larger += 1;
            assert!(Pubkey::create_program_address(&[seed, &[larger]], &program_key).is_err());
        }
    }
}

#[test]
fn derive_skips_a_byte_whose_candidate_is_on_the_curve() {
    let program_key = Pubkey::new_from_array(program().bytes);
    let mut skipped = 0;
    for n in 0u8..40 {
        let seed = [n, 1, 2];
        let derived = derivation::derive(&seed, &program()).unwrap();
        if derived.bump < 255 {
            skipped += 1;
        }
        let (expected, bump) = Pubkey::find_program_address(&[&seed], &program_key);
        assert_eq!((derived.address.bytes, derived.bump), (expected.to_bytes(), bump));
    }
    assert!(skipped > 0);
}

#[test]
fn derive_fails_on_too_many_seeds() {
    let seeds: Vec<Vec<u8>> = (0u8..16).map(|n| vec![n]).collect();
    assert_eq!(
        derive_with_seeds(&seeds, &program()),
        Err(pool_admin::derivation::DerivationExhausted)
    );
    let fifteen: Vec<Vec<u8>> = (0u8..15).map(|n| vec![n]).collect();
    assert!(derive_with_seeds(&fifteen, &program()).is_ok());
}

#[test]
fn is_on_curve_tells_a_public_key_from_a_derived_address() {
    let key = solana_sdk::signature::Keypair::new_from_array([9u8; 32]);
    let public = solana_sdk::signer::Signer::pubkey(&key);
    assert!(is_on_curve(&Address::new(public.to_bytes())));
    let derived = derivation::derive(b"vault", &program()).unwrap();
    assert!(!is_on_curve(&derived.address));
}

#[test]
fn associated_token_address_differs_by_mint_and_by_owner() {
    let owner = Address::new([3u8; 32]);
    let other = Address::new([4u8; 32]);
    let mint = Address::new([8u8; 32]);
    let a = derive_associated_token_address(&owner, &mint).unwrap();
    let b = derive_associated_token_address(&other, &mint).unwrap();
    let c = derive_associated_token_address(&mint, &owner).unwrap();
    assert_ne!(a, b);
    assert_ne!(a, c);
    assert_eq!(a, derive_associated_token_address(&owner, &mint).unwrap());
    assert!(!is_on_curve(&a));
    let expected = spl_associated_token_account::get_associated_token_address(
        &Pubkey::new_from_array(owner.bytes),
        &Pubkey::new_from_array(mint.bytes),
    );
    assert_eq!(a.bytes, expected.to_bytes());
}
