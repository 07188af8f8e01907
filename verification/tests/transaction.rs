use pool_admin::address::Address;
use pool_admin::instruction::{build_create_config, AccountReference, Instruction};
use pool_admin::keys::KeyPair;
use pool_admin::transaction::{
    check_signers, collect_required_signers, sign_transaction, Checkpoint, SigningError,
    MAX_INSTRUCTION_ACCOUNTS, MAX_PAYLOAD_BYTES,
};
use solana_sdk::instruction::AccountMeta;
use solana_sdk::message::Message;
use solana_sdk::pubkey::Pubkey;
use solana_sdk::signature::{Keypair, Signature};
use solana_sdk::signer::Signer;
use solana_sdk::transaction::Transaction;

fn key(n: u8) -> KeyPair {
    KeyPair::from_bytes(&Keypair::new_from_array([n; 32]).to_bytes()).unwrap()
}

fn outside_key(n: u8) -> Keypair {
    Keypair::new_from_array([n; 32])
}

fn addr(n: u8) -> Address {
    Address::new([n; 32])
}

fn outside_instruction(ix: &Instruction) -> solana_sdk::instruction::Instruction {
    solana_sdk::instruction::Instruction {
        program_id: Pubkey::new_from_array(ix.program.bytes),
        accounts: ix
            .accounts
            .iter()
            .map(|a| AccountMeta {
                pubkey: Pubkey::new_from_array(a.address.bytes),
                is_signer: a.is_signer,
                is_writable: a.is_writable,
            })
            .collect(),
        data: ix.data.clone(),
    }
}

fn signed_by_two(payer: &KeyPair, second: &KeyPair) -> Instruction {
    Instruction {
        program: addr(200),
        accounts: vec![
            AccountReference::writable(addr(1), false),
            AccountReference::readonly(second.address(), true),
            AccountReference::writable(payer.address(), true),
            AccountReference::readonly(second.address(), true),
            AccountReference::readonly(addr(2), false),
        ],
        data: vec![1, 2, 3],
    }
}

#[test]
fn required_signers_start_with_the_fee_payer() {
    let ix = build_create_config(&addr(1), &addr(2), &addr(3), &addr(4), &addr(5));
    assert_eq!(collect_required_signers(&addr(3), &ix), vec![addr(3)]);
    assert_eq!(collect_required_signers(&addr(9), &ix), vec![addr(9), addr(3)]);
}

#[test]
fn required_signers_hold_each_signer_once_in_order_of_appearance() {
    let ix = Instruction {
        program: addr(200),
        accounts: vec![
            AccountReference::readonly(addr(5), true),
            AccountReference::writable(addr(6), false),
            AccountReference::writable(addr(4), true),
            AccountReference::readonly(addr(5), true),
            AccountReference::readonly(addr(1), true),
            AccountReference::readonly(addr(4), false),
        ],
        data: vec![],
    };
    assert_eq!(collect_required_signers(&addr(1), &ix), vec![addr(1), addr(5), addr(4)]);
    let none = Instruction { program: addr(200), accounts: vec![], data: vec![] };
    assert_eq!(collect_required_signers(&addr(1), &none), vec![addr(1)]);
}

#[test]
fn signed_message_is_the_message_of_the_network() {
    let payer = key(3);
    let ix = build_create_config(&addr(1), &addr(2), &payer.address(), &addr(4), &addr(5));
    let checkpoint = Checkpoint { bytes: [42u8; 32] };
    let tx = sign_transaction(ix.duplicate(), &payer, &vec![], checkpoint).unwrap();
    let expected = Message::new_with_blockhash(
        &[outside_instruction(&ix)],
        Some(&Pubkey::new_from_array(payer.address().bytes)),
        &solana_sdk::hash::Hash::new_from_array([42u8; 32]),
    );
    assert_eq!(tx.message, expected.serialize());
    assert_eq!(tx.fee_payer, payer.address());
    assert_eq!(tx.instruction, ix);
    assert_eq!(tx.checkpoint, checkpoint);
    assert_ne!(tx.message, ix.data);
}

#[test]
fn signed_message_depends_on_the_checkpoint() {
    let payer = key(3);
    let ix = build_create_config(&addr(1), &addr(2), &payer.address(), &addr(4), &addr(5));
    let one = sign_transaction(ix.duplicate(), &payer, &vec![], Checkpoint { bytes: [1u8; 32] })
        .unwrap();
    let two = sign_transaction(ix.duplicate(), &payer, &vec![], Checkpoint { bytes: [2u8; 32] })
        .unwrap();
    assert_ne!(one.message, two.message);
    assert_ne!(one.signatures, two.signatures);
}

#[test]
fn signatures_are_those_of_a_transaction_of_the_network() {
    let payer = key(3);
    let second = key(4);
    let ix = signed_by_two(&payer, &second);
    let checkpoint = Checkpoint { bytes: [9u8; 32] };
    let tx = sign_transaction(ix.duplicate(), &payer, &vec![second], checkpoint).unwrap();
    assert_eq!(tx.signatures.len(), 2);
    assert_eq!(tx.signatures[0].signer, payer.address());
    assert_eq!(tx.signatures[1].signer, second.address());
    let outside = Transaction::new_signed_with_payer(
        &[outside_instruction(&ix)],
        Some(&outside_key(3).pubkey()),
        &[&outside_key(3), &outside_key(4)],
        solana_sdk::hash::Hash::new_from_array([9u8; 32]),
    );
    assert_eq!(outside.message.serialize(), tx.message);
    for entry in &tx.signatures {
        let place = outside
            .message
            .account_keys
            .iter()
            .position(|k| k.to_bytes() == entry.signer.bytes)
            .unwrap();
        assert_eq!(outside.signatures[place], Signature::from(entry.signature.bytes));
        assert!(Signature::from(entry.signature.bytes).verify(&entry.signer.bytes, &tx.message));
    }
    assert_eq!(outside.signatures.len(), tx.signatures.len());
}

#[test]
fn signing_needs_no_second_copy_of_the_fee_payer() {
    let payer = key(3);
    let ix = build_create_config(&addr(1), &addr(2), &payer.address(), &addr(4), &addr(5));
    let checkpoint = Checkpoint { bytes: [9u8; 32] };
    let alone = sign_transaction(ix.duplicate(), &payer, &vec![], checkpoint).unwrap();
    let twice = sign_transaction(ix.duplicate(), &payer, &vec![payer], checkpoint).unwrap();
    assert_eq!(alone, twice);
    assert_eq!(alone.signatures.len(), 1);
}

#[test]
fn signing_leaves_aside_keys_that_are_not_required() {
    let payer = key(3);
    let ix = build_create_config(&addr(1), &addr(2), &payer.address(), &addr(4), &addr(5));
    let checkpoint = Checkpoint { bytes: [9u8; 32] };
    let tx = sign_transaction(ix.duplicate(), &payer, &vec![key(50), key(51)], checkpoint).unwrap();
    assert_eq!(tx.signatures.len(), 1);
    assert_eq!(tx.signatures[0].signer, payer.address());
}

#[test]
fn signing_fails_where_a_signer_has_no_key() {
    let payer = key(3);
    let second = key(4);
    let third = key(5);
    let mut ix = signed_by_two(&payer, &second);
    ix.accounts.push(AccountReference::readonly(third.address(), true));
    let checkpoint = Checkpoint { bytes: [9u8; 32] };
    assert_eq!(
        sign_transaction(ix.duplicate(), &payer, &vec![], checkpoint),
        Err(SigningError::MissingSigner(second.address()))
    );
    assert_eq!(
        sign_transaction(ix.duplicate(), &payer, &vec![third], checkpoint),
        Err(SigningError::MissingSigner(second.address()))
    );
    assert_eq!(
        sign_transaction(ix.duplicate(), &payer, &vec![second], checkpoint),
        Err(SigningError::MissingSigner(third.address()))
    );
    assert!(sign_transaction(ix.duplicate(), &payer, &vec![third, second], checkpoint).is_ok());
    assert_eq!(
        check_signers(&ix, &payer, &vec![second]),
        Err(SigningError::MissingSigner(third.address()))
    );
    assert_eq!(check_signers(&ix, &payer, &vec![second, third]), Ok(()));
}

#[test]
fn signing_fails_where_the_instruction_does_not_fit() {
    let payer = key(3);
    let checkpoint = Checkpoint { bytes: [9u8; 32] };
    let accounts: Vec<AccountReference> = (0..MAX_INSTRUCTION_ACCOUNTS + 1)
        .map(|n| AccountReference::readonly(Address::new([(n % 251) as u8; 32]), false))
        .collect();
    let wide = Instruction { program: addr(200), accounts, data: vec![0u8; MAX_PAYLOAD_BYTES + 1] };
    assert_eq!(
        sign_transaction(wide.duplicate(), &payer, &vec![], checkpoint),
        Err(SigningError::TooManyAccounts)
    );
    assert_eq!(check_signers(&wide, &payer, &vec![]), Err(SigningError::TooManyAccounts));
    let long = Instruction {
        program: addr(200),
        accounts: vec![],
        data: vec![0u8; MAX_PAYLOAD_BYTES + 1],
    };
    assert_eq!(
        sign_transaction(long.duplicate(), &payer, &vec![], checkpoint),
        Err(SigningError::PayloadTooLarge)
    );
    assert_eq!(check_signers(&long, &payer, &vec![]), Err(SigningError::PayloadTooLarge));
}

#[test]
fn signing_takes_an_instruction_at_the_limits() {
    let payer = key(3);
    let checkpoint = Checkpoint { bytes: [9u8; 32] };
    let accounts: Vec<AccountReference> = (0..MAX_INSTRUCTION_ACCOUNTS)
        .map(|n| {
            let mut bytes = [0u8; 32];
            bytes[0] = (n % 256) as u8;
            bytes[1] = (n / 256) as u8;
            bytes[2] = 1;
            AccountReference::readonly(Address::new(bytes), false)
        })
        .collect();
    let ix = Instruction { program: addr(200), accounts, data: vec![7u8; MAX_PAYLOAD_BYTES] };
    let tx = sign_transaction(ix.duplicate(), &payer, &vec![], checkpoint).unwrap();
    assert_eq!(tx.signatures.len(), 1);
    let expected = Message::new_with_blockhash(
        &[outside_instruction(&ix)],
        Some(&Pubkey::new_from_array(payer.address().bytes)),
        &solana_sdk::hash::Hash::new_from_array([9u8; 32]),
    );
    assert_eq!(tx.message, expected.serialize());
}
