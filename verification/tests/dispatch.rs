use pool_admin::address::{Address, RENT_SYSVAR_BYTES, SYSTEM_PROGRAM_BYTES};
use pool_admin::config::{ClientConfig, ConfigError, ConfigField, RawConfig};
use pool_admin::dispatch::{plan_instruction, validate_settings, CommandsName, ProtocolSeeds};
use pool_admin::failure::{Failure, PreconditionError};
use pool_admin::instruction::{AccountReference, CREATE_CONFIG_ACCOUNT_TAG, OWNER_WITHDRAW_TAG};
use solana_sdk::pubkey::Pubkey;

fn addr(n: u8) -> Address {
    Address::new([n; 32])
}

fn key(address: &Address) -> Pubkey {
    Pubkey::new_from_array(address.bytes)
}

fn config() -> ClientConfig {
    ClientConfig {
        http_url: "http://localhost:8899".to_string(),
        ws_url: "ws://localhost:8900".to_string(),
        payer_path: "payer.json".to_string(),
        admin_path: "admin.json".to_string(),
        withdrawer_path: "withdrawer.json".to_string(),
        admin_key: addr(21),
        raydium_program: addr(22),
        pnl_owner: addr(23),
        withdrawer: addr(24),
        amm_pool: addr(25),
        amm_open_orders: addr(26),
        amm_coin_vault: addr(27),
        amm_pc_vault: addr(28),
        amm_target_orders: addr(29),
        coin_mint: addr(30),
        pc_mint: addr(31),
    }
}

fn seeds() -> ProtocolSeeds {
    ProtocolSeeds {
        config_seed: b"amm_config_account_seed".to_vec(),
        authority_seed: b"amm authority".to_vec(),
    }
}

fn reference(address: Address, is_signer: bool, is_writable: bool) -> AccountReference {
    AccountReference { address, is_signer, is_writable }
}

#[test]
fn create_config_is_planned_on_the_derived_config_address() {
    let config = config();
    let payer = addr(40);
    let ix = plan_instruction(CommandsName::CreateConfigAccount, &config, &payer, &seeds()).unwrap();
    let (config_address, _) =
        Pubkey::find_program_address(&[b"amm_config_account_seed"], &key(&config.raydium_program));
    assert_eq!(ix.program, config.raydium_program);
    assert_eq!(
        ix.accounts,
        vec![
            reference(Address::new(config_address.to_bytes()), false, true),
            reference(config.admin_key, false, false),
            reference(payer, true, true),
            reference(config.pnl_owner, false, false),
            reference(Address::new(SYSTEM_PROGRAM_BYTES), false, false),
            reference(Address::new(RENT_SYSVAR_BYTES), false, false),
        ]
    );
    assert_eq!(ix.data, vec![CREATE_CONFIG_ACCOUNT_TAG]);
}

#[test]
fn owner_withdraw_pays_out_to_the_token_accounts_of_the_withdrawer() {
    let config = config();
    let payer = addr(40);
    let ix = plan_instruction(CommandsName::OwnerWithdrawPool, &config, &payer, &seeds()).unwrap();
    let user_coin = spl_associated_token_account::get_associated_token_address(
        &key(&config.withdrawer),
        &key(&config.coin_mint),
    );
    let user_pc = spl_associated_token_account::get_associated_token_address(
        &key(&config.withdrawer),
        &key(&config.pc_mint),
    );
    assert_ne!(user_coin, user_pc);
    assert_eq!(ix.accounts[7], reference(Address::new(user_coin.to_bytes()), false, true));
    assert_eq!(ix.accounts[8], reference(Address::new(user_pc.to_bytes()), false, true));
    let (authority, _) =
        Pubkey::find_program_address(&[b"amm authority"], &key(&config.raydium_program));
    assert_eq!(ix.program, config.raydium_program);
    assert_eq!(
        ix.accounts,
        vec![
            reference(config.amm_pool, false, true),
            reference(Address::new(authority.to_bytes()), false, false),
            reference(config.amm_open_orders, false, true),
            reference(config.amm_coin_vault, false, true),
            reference(config.amm_pc_vault, false, true),
            reference(config.coin_mint, false, false),
            reference(config.pc_mint, false, false),
            reference(Address::new(user_coin.to_bytes()), false, true),
            reference(Address::new(user_pc.to_bytes()), false, true),
            reference(config.withdrawer, false, false),
            reference(config.amm_target_orders, false, true),
            reference(payer, true, false),
        ]
    );
    assert_eq!(ix.data, vec![OWNER_WITHDRAW_TAG]);
}

#[test]
fn command_fails_where_its_address_cannot_be_derived() {
    let long = ProtocolSeeds { config_seed: vec![1u8; 33], authority_seed: vec![2u8; 40] };
    assert_eq!(
        plan_instruction(CommandsName::CreateConfigAccount, &config(), &addr(40), &long),
        Err(Failure::DerivationExhausted)
    );
    assert_eq!(
        plan_instruction(CommandsName::OwnerWithdrawPool, &config(), &addr(40), &long),
        Err(Failure::DerivationExhausted)
    );
    let mixed = ProtocolSeeds { config_seed: vec![1u8; 33], authority_seed: vec![2u8; 32] };
    assert!(plan_instruction(CommandsName::OwnerWithdrawPool, &config(), &addr(40), &mixed).is_ok());
}

#[test]
fn settings_in_error_fail_as_a_precondition() {
    let text = |s: &str| Some(s.to_string());
    let address = "3Qvevpr9VQp7ECWjAU186oiSGjMhDucjU32oSX8BfxGK";
    let raw = RawConfig {
        http_url: text("http://localhost:8899"),
        ws_url: text("ws://localhost:8900"),
        payer_path: text("payer.json"),
        admin_path: text("admin.json"),
        withdrawer_path: text("withdrawer.json"),
        raydium_program: text(address),
        pnl_owner: text(address),
        withdrawer: text(address),
        admin_key: text(address),
        amm_pool: text(address),
        amm_open_orders: text(address),
        amm_coin_vault: text(address),
        amm_pc_vault: text(address),
        amm_target_orders: text(address),
        coin_mint: text(address),
        pc_mint: text(address),
    };
    let config = validate_settings(raw.clone()).unwrap();
    assert_eq!(config.pc_mint, Address::parse(address).unwrap());
    assert_eq!(config.http_url, "http://localhost:8899");
    let mut wrong = raw.clone();
    wrong.coin_mint = text("l0");
    assert_eq!(
        validate_settings(wrong),
        Err(Failure::Precondition(PreconditionError::Config(ConfigError::InvalidAddress(
            ConfigField::CoinMint
        ))))
    );
    let mut missing = raw;
    missing.payer_path = None;
    assert_eq!(
        validate_settings(missing),
        Err(Failure::Precondition(PreconditionError::Config(ConfigError::Missing(
            ConfigField::PayerPath
        ))))
    );
}
