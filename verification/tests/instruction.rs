use pool_admin::address::{Address, RENT_SYSVAR_BYTES, SYSTEM_PROGRAM_BYTES};
use pool_admin::instruction::{
    build_create_config, build_owner_withdraw, decode_payload, encode_payload, AccountReference,
    Opcode, Payload, PayloadError, CREATE_CONFIG_ACCOUNT_TAG, OWNER_WITHDRAW_TAG,
};

fn addr(n: u8) -> Address {
    Address::new([n; 32])
}

fn reference(address: Address, is_signer: bool, is_writable: bool) -> AccountReference {
    AccountReference { address, is_signer, is_writable }
}

#[test]
fn create_config_names_its_accounts_in_order() {
    let (p, a, b, c, d) = (addr(1), addr(2), addr(3), addr(4), addr(5));
    let ix = build_create_config(&p, &a, &b, &c, &d);
    assert_eq!(ix.program, p);
    assert_eq!(
        ix.accounts,
        vec![
            reference(c, false, true),
            reference(a, false, false),
            reference(b, true, true),
            reference(d, false, false),
            reference(Address::new(SYSTEM_PROGRAM_BYTES), false, false),
            reference(Address::new(RENT_SYSVAR_BYTES), false, false),
        ]
    );
}

#[test]
fn create_config_does_not_ask_the_administrator_to_sign() {
    let ix = build_create_config(&addr(1), &addr(2), &addr(3), &addr(4), &addr(5));
    let signers: Vec<Address> =
        ix.accounts.iter().filter(|a| a.is_signer).map(|a| a.address).collect();
    assert_eq!(signers, vec![addr(3)]);
}

#[test]
fn create_config_payload_is_its_discriminator() {
    let ix = build_create_config(&addr(1), &addr(2), &addr(3), &addr(4), &addr(5));
    assert_eq!(ix.data, vec![CREATE_CONFIG_ACCOUNT_TAG]);
    assert_eq!(ix.data, vec![14u8]);
    assert_eq!(
        decode_payload(&ix.data),
        Ok(Payload { opcode: Opcode::CreateConfigAccount, arguments: vec![] })
    );
}

#[test]
fn owner_withdraw_names_its_accounts_in_order() {
    let program = addr(1);
    let pool = addr(2);
    let authority = addr(3);
    let open_orders = addr(4);
    let coin_mint = addr(5);
    let pc_mint = addr(6);
    let coin_vault = addr(7);
    let pc_vault = addr(8);
    let user_coin = addr(9);
    let user_pc = addr(10);
    let withdrawer = addr(11);
    let target_orders = addr(12);
    let payer = addr(13);
    let ix = build_owner_withdraw(
        &program,
        &pool,
        &authority,
        &open_orders,
        &coin_mint,
        &pc_mint,
        &coin_vault,
        &pc_vault,
        &user_coin,
        &user_pc,
        &withdrawer,
        &target_orders,
        &payer,
    );
    assert_eq!(ix.program, program);
    assert_eq!(
        ix.accounts,
        vec![
            reference(pool, false, true),
            reference(authority, false, false),
            reference(open_orders, false, true),
            reference(coin_vault, false, true),
            reference(pc_vault, false, true),
            reference(coin_mint, false, false),
            reference(pc_mint, false, false),
            reference(user_coin, false, true),
            reference(user_pc, false, true),
            reference(withdrawer, false, false),
            reference(target_orders, false, true),
            reference(payer, true, false),
        ]
    );
}

#[test]
fn owner_withdraw_payload_is_its_discriminator() {
    let a = addr(1);
    let ix = build_owner_withdraw(&a, &a, &a, &a, &a, &a, &a, &a, &a, &a, &a, &a, &a);
    assert_eq!(ix.data, vec![OWNER_WITHDRAW_TAG]);
    assert_eq!(ix.data, vec![16u8]);
    assert_eq!(
        decode_payload(&ix.data),
        Ok(Payload { opcode: Opcode::OwnerWithdraw, arguments: vec![] })
    );
}

#[test]
fn payload_round_trips_with_arguments() {
    for opcode in [Opcode::CreateConfigAccount, Opcode::OwnerWithdraw] {
        for arguments in [vec![], vec![0u8], vec![1, 2, 3, 255], vec![14, 16]] {
            let data = encode_payload(opcode, &arguments);
            assert_eq!(data.len(), arguments.len() + 1);
            assert_eq!(data[0], opcode.tag());
            assert_eq!(&data[1..], &arguments[..]);
            assert_eq!(decode_payload(&data), Ok(Payload { opcode, arguments }));
        }
    }
}

#[test]
fn decode_turns_down_an_empty_payload() {
    assert_eq!(decode_payload(&[]), Err(PayloadError::Empty));
}

#[test]
fn decode_turns_down_an_unknown_discriminator() {
    assert_eq!(decode_payload(&[0]), Err(PayloadError::UnknownOpcode(0)));
    assert_eq!(decode_payload(&[15, 1, 2]), Err(PayloadError::UnknownOpcode(15)));
    assert_eq!(decode_payload(&[255]), Err(PayloadError::UnknownOpcode(255)));
}

#[test]
fn opcode_and_tag_convert_both_ways() {
    assert_eq!(Opcode::CreateConfigAccount.tag(), 14);
    assert_eq!(Opcode::OwnerWithdraw.tag(), 16);
    assert_eq!(Opcode::from_tag(14), Some(Opcode::CreateConfigAccount));
    assert_eq!(Opcode::from_tag(16), Some(Opcode::OwnerWithdraw));
    assert_eq!(Opcode::from_tag(15), None);
}

#[test]
fn account_reference_constructors_set_the_flags() {
    assert_eq!(AccountReference::writable(addr(1), true), reference(addr(1), true, true));
    assert_eq!(AccountReference::writable(addr(1), false), reference(addr(1), false, true));
    assert_eq!(AccountReference::readonly(addr(1), true), reference(addr(1), true, false));
    assert_eq!(AccountReference::readonly(addr(1), false), reference(addr(1), false, false));
}

#[test]
fn duplicate_copies_an_instruction() {
    let ix = build_create_config(&addr(1), &addr(2), &addr(3), &addr(4), &addr(5));
    assert_eq!(ix.duplicate(), ix);
}
