//! From a command to the instruction that it submits.

use crate::address::{Address, ASSOCIATED_TOKEN_PROGRAM_BYTES};
use crate::config::{validation_outcome, ClientConfig, RawConfig};
use crate::derivation::{
    derive_associated_token_address, derived_address, outcome_is_the_derived_address,
    token_account_seeds,
};
use crate::failure::{Failure, PreconditionError};
use crate::instruction::{
    build_create_config, build_owner_withdraw, create_config_instruction,
    owner_withdraw_instruction, Instruction, InstructionView,
};
use vstd::prelude::*;

verus! {

/// Validates the settings before anything else runs, and reports a field
/// in error as a failed precondition.
pub fn validate_settings(raw: RawConfig) -> (res: Result<ClientConfig, Failure>)
    ensures
        match res {
            Ok(config) => validation_outcome(raw, Ok(config)),
            Err(Failure::Precondition(PreconditionError::Config(error))) => validation_outcome(
                raw,
                Err(error),
            ),
            Err(_) => false,
        },
{
    match ClientConfig::validate(raw) {
        Ok(config) => Ok(config),
        Err(error) => Err(Failure::Precondition(PreconditionError::Config(error))),
    }
}

/// The commands of the tool.
#[derive(Clone, Copy, Debug, PartialEq, Eq, Structural)]
pub enum CommandsName {
    CreateConfigAccount,
    OwnerWithdrawPool,
}

/// The seeds that the program derives its own addresses from.
#[derive(Clone, Debug, PartialEq, Eq)]
pub struct ProtocolSeeds {
    /// The seed of the configuration account.
    pub config_seed: Vec<u8>,
    /// The seed of the authority over the pools.
    pub authority_seed: Vec<u8>,
}

/// The instruction of a command, over plain values: the addresses that
/// the command needs are derived first, and any that does not exist fails
/// the command.
pub open spec fn planned_instruction(
    command: CommandsName,
    config: ClientConfig,
    payer: Seq<u8>,
    seeds: ProtocolSeeds,
) -> Option<InstructionView> {
    let program = config.raydium_program@;
    match command {
        CommandsName::CreateConfigAccount => match derived_address(
            seq![seeds.config_seed@],
            program,
        ) {
            Some(config_address) => Some(
                create_config_instruction(
                    program,
                    config.admin_key@,
                    payer,
                    config_address,
                    config.pnl_owner@,
                ),
            ),
            None => None,
        },
        CommandsName::OwnerWithdrawPool => match (
            derived_address(seq![seeds.authority_seed@], program),
            derived_address(
                token_account_seeds(config.withdrawer@, config.coin_mint@),
                ASSOCIATED_TOKEN_PROGRAM_BYTES@,
            ),
            derived_address(
                token_account_seeds(config.withdrawer@, config.pc_mint@),
                ASSOCIATED_TOKEN_PROGRAM_BYTES@,
            ),
        ) {
            (Some(authority), Some(user_coin_account), Some(user_pc_account)) => Some(
                owner_withdraw_instruction(
                    program,
                    config.amm_pool@,
                    authority,
                    config.amm_open_orders@,
                    config.coin_mint@,
                    config.pc_mint@,
                    config.amm_coin_vault@,
                    config.amm_pc_vault@,
                    user_coin_account,
                    user_pc_account,
                    config.withdrawer@,
                    config.amm_target_orders@,
                    payer,
                ),
            ),
            _ => None,
        },
    }
}

/// Builds the instruction of a command from the validated settings, the
/// address of the fee payer and the seeds of the program. Fails exactly
/// where an address that the command needs cannot be derived.
pub fn plan_instruction(
    command: CommandsName,
    config: &ClientConfig,
    payer: &Address,
    seeds: &ProtocolSeeds,
) -> (res: Result<Instruction, Failure>)
    ensures
        match res {
            Ok(ix) => planned_instruction(command, *config, payer@, *seeds) == Some(ix@),
            Err(failure) => failure == Failure::DerivationExhausted && planned_instruction(
                command,
                *config,
                payer@,
                *seeds,
            ) is None,
        },
{
    let program = &config.raydium_program;
    match command {
        CommandsName::CreateConfigAccount => {
            let outcome = crate::derivation::derive(seeds.config_seed.as_slice(), program);
            proof {
                outcome_is_the_derived_address(seq![seeds.config_seed@], program@, outcome);
            }
            match outcome {
                Ok(derived) => Ok(
                    build_create_config(
                        program,
                        &config.admin_key,
                        payer,
                        &derived.address,
                        &config.pnl_owner,
                    ),
                ),
                Err(_) => Err(Failure::DerivationExhausted),
            }
        },
        CommandsName::OwnerWithdrawPool => {
            let outcome = crate::derivation::derive(seeds.authority_seed.as_slice(), program);
            proof {
                outcome_is_the_derived_address(seq![seeds.authority_seed@], program@, outcome);
            }
            let authority = match outcome {
                Ok(derived) => derived.address,
                Err(_) => {
                    return Err(Failure::DerivationExhausted);
                },
            };
            let user_coin_account = match derive_associated_token_address(
                &config.withdrawer,
                &config.coin_mint,
            ) {
                Ok(address) => address,
                Err(_) => {
                    return Err(Failure::DerivationExhausted);
                },
            };
            let user_pc_account = match derive_associated_token_address(
                &config.withdrawer,
                &config.pc_mint,
            ) {
                Ok(address) => address,
                Err(_) => {
                    return Err(Failure::DerivationExhausted);
                },
            };
            Ok(
                build_owner_withdraw(
                    program,
                    &config.amm_pool,
                    &authority,
                    &config.amm_open_orders,
                    &config.coin_mint,
                    &config.pc_mint,
                    &config.amm_coin_vault,
                    &config.amm_pc_vault,
                    &user_coin_account,
                    &user_pc_account,
                    &config.withdrawer,
                    &config.amm_target_orders,
                    payer,
                ),
            )
        },
    }
}

} // verus!
