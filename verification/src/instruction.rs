//! The two instructions of the protocol: their payloads and their account
//! lists, in the order and with the flags that the program expects.

use crate::address::{Address, RENT_SYSVAR_BYTES, SYSTEM_PROGRAM_BYTES};
use vstd::prelude::*;

verus! {

/// The discriminator of "create config account".
pub const CREATE_CONFIG_ACCOUNT_TAG: u8 = 14;

/// The discriminator of "owner withdraw".
pub const OWNER_WITHDRAW_TAG: u8 = 16;

/// The operations that this library builds instructions for.
#[derive(Clone, Copy, Debug, PartialEq, Eq, Structural)]
pub enum Opcode {
    CreateConfigAccount,
    OwnerWithdraw,
}

impl Opcode {
    /// The discriminator byte that leads the payload of the operation.
    pub open spec fn spec_tag(self) -> u8 {
        match self {
            Opcode::CreateConfigAccount => CREATE_CONFIG_ACCOUNT_TAG,
            Opcode::OwnerWithdraw => OWNER_WITHDRAW_TAG,
        }
    }

    /// The operation that a discriminator byte stands for, if any.
    pub open spec fn spec_from_tag(tag: u8) -> Option<Opcode> {
        if tag == CREATE_CONFIG_ACCOUNT_TAG {
            Some(Opcode::CreateConfigAccount)
        } else if tag == OWNER_WITHDRAW_TAG {
            Some(Opcode::OwnerWithdraw)
        } else {
            None
        }
    }

    #[verifier::when_used_as_spec(spec_tag)]
    pub fn tag(self) -> (t: u8)
        ensures
            t == self.spec_tag(),
    {
        match self {
            Opcode::CreateConfigAccount => CREATE_CONFIG_ACCOUNT_TAG,
            Opcode::OwnerWithdraw => OWNER_WITHDRAW_TAG,
        }
    }

    pub fn from_tag(tag: u8) -> (op: Option<Opcode>)
        ensures
            op == Opcode::spec_from_tag(tag),
    {
        if tag == CREATE_CONFIG_ACCOUNT_TAG {
            Some(Opcode::CreateConfigAccount)
        } else if tag == OWNER_WITHDRAW_TAG {
            Some(Opcode::OwnerWithdraw)
        } else {
            None
        }
    }
}

/// A decoded payload: the operation and the bytes of its arguments.
#[derive(Clone, Debug, PartialEq, Eq)]
pub struct Payload {
    pub opcode: Opcode,
    pub arguments: Vec<u8>,
}

/// Why a payload does not decode.
#[derive(Clone, Copy, Debug, PartialEq, Eq)]
pub enum PayloadError {
    /// The payload holds no discriminator.
    Empty,
    /// The discriminator stands for no operation.
    UnknownOpcode(u8),
}

/// The payload bytes of an operation: its discriminator, then its
/// arguments.
pub open spec fn encoded(opcode: Opcode, arguments: Seq<u8>) -> Seq<u8> {
    seq![opcode.spec_tag()] + arguments
}

/// What payload bytes decode to.
pub open spec fn decoded(data: Seq<u8>) -> Result<(Opcode, Seq<u8>), PayloadError> {
    if data.len() == 0 {
        Err(PayloadError::Empty)
    } else {
        match Opcode::spec_from_tag(data[0]) {
            Some(opcode) => Ok((opcode, data.subrange(1, data.len() as int))),
            None => Err(PayloadError::UnknownOpcode(data[0])),
        }
    }
}

/// Decoding the payload of an operation gives back the operation and its
/// arguments.
pub proof fn payload_round_trip(opcode: Opcode, arguments: Seq<u8>)
    ensures
        decoded(encoded(opcode, arguments)) == Ok::<(Opcode, Seq<u8>), PayloadError>(
            (opcode, arguments),
        ),
{
    let data = encoded(opcode, arguments);
    assert(data[0] == opcode.spec_tag());
    assert(data.subrange(1, data.len() as int) =~= arguments);
}

/// Encoding what payload bytes decoded to gives back the bytes.
pub proof fn payload_encoding_inverts_decoding(data: Seq<u8>)
    requires
        decoded(data) is Ok,
    ensures
        encoded(decoded(data).unwrap().0, decoded(data).unwrap().1) == data,
{
    assert(encoded(decoded(data).unwrap().0, decoded(data).unwrap().1) =~= data);
}

/// Encodes the payload of an operation.
pub fn encode_payload(opcode: Opcode, arguments: &[u8]) -> (data: Vec<u8>)
    ensures
        data@ == encoded(opcode, arguments@),
        decoded(data@) == Ok::<(Opcode, Seq<u8>), PayloadError>((opcode, arguments@)),
{
    let mut data: Vec<u8> = Vec::new();
    data.push(opcode.tag());
    let mut i: usize = 0;
    while i < arguments.len()
        invariant
            i <= arguments.len(),
            data@.len() == i + 1,
            data@[0] == opcode.spec_tag(),
            forall|j: int| 0 <= j < i ==> data@[j + 1] == arguments@[j],
        decreases arguments.len() - i,
    {
        data.push(arguments[i]);
        i += 1;
    }
    assert(data@ =~= encoded(opcode, arguments@));
    proof {
        payload_round_trip(opcode, arguments@);
    }
    data
}

/// Decodes payload bytes into the operation and the bytes of its
/// arguments.
pub fn decode_payload(data: &[u8]) -> (res: Result<Payload, PayloadError>)
    ensures
        match res {
            Ok(payload) => decoded(data@) == Ok::<(Opcode, Seq<u8>), PayloadError>(
                (payload.opcode, payload.arguments@),
            ),
            Err(e) => decoded(data@) == Err::<(Opcode, Seq<u8>), PayloadError>(e),
        },
{
    if data.len() == 0 {
        return Err(PayloadError::Empty);
    }
    match Opcode::from_tag(data[0]) {
        Some(opcode) => {
            let mut arguments: Vec<u8> = Vec::new();
            let mut i: usize = 1;
            while i < data.len()
                invariant
                    1 <= i <= data.len(),
                    arguments@.len() == i - 1,
                    forall|j: int| 0 <= j < i - 1 ==> arguments@[j] == data@[j + 1],
                decreases data.len() - i,
            {
                arguments.push(data[i]);
                i += 1;
            }
            assert(arguments@ =~= data@.subrange(1, data@.len() as int));
            Ok(Payload { opcode, arguments })
        },
        None => Err(PayloadError::UnknownOpcode(data[0])),
    }
}

/// The role of one account in an instruction, over plain values.
pub ghost struct AccountRole {
    pub address: Seq<u8>,
    pub is_signer: bool,
    pub is_writable: bool,
}

/// One account of an instruction: its address, whether it must sign the
/// transaction, and whether the instruction may write to it.
#[derive(Clone, Copy, Debug, PartialEq, Eq)]
pub struct AccountReference {
    pub address: Address,
    pub is_signer: bool,
    pub is_writable: bool,
}

impl View for AccountReference {
    type V = AccountRole;

    open spec fn view(&self) -> AccountRole {
        AccountRole {
            address: self.address@,
            is_signer: self.is_signer,
            is_writable: self.is_writable,
        }
    }
}

/// A writable account.
pub open spec fn writable(address: Seq<u8>, is_signer: bool) -> AccountRole {
    AccountRole { address, is_signer, is_writable: true }
}

/// A read-only account.
pub open spec fn readonly(address: Seq<u8>, is_signer: bool) -> AccountRole {
    AccountRole { address, is_signer, is_writable: false }
}

impl AccountReference {
    /// A writable account.
    pub fn writable(address: Address, is_signer: bool) -> (a: AccountReference)
        ensures
            a@ == writable(address@, is_signer),
            a.address == address,
    {
        AccountReference { address, is_signer, is_writable: true }
    }

    /// A read-only account.
    pub fn readonly(address: Address, is_signer: bool) -> (a: AccountReference)
        ensures
            a@ == readonly(address@, is_signer),
            a.address == address,
    {
        AccountReference { address, is_signer, is_writable: false }
    }
}

/// An instruction over plain values.
pub ghost struct InstructionView {
    pub program: Seq<u8>,
    pub accounts: Seq<AccountRole>,
    pub data: Seq<u8>,
}

/// An instruction: the program that runs it, the accounts it names, in
/// order, and its payload.
#[derive(Clone, Debug, PartialEq, Eq)]
pub struct Instruction {
    pub program: Address,
    pub accounts: Vec<AccountReference>,
    pub data: Vec<u8>,
}

impl View for Instruction {
    type V = InstructionView;

    open spec fn view(&self) -> InstructionView {
        InstructionView {
            program: self.program@,
            accounts: self.accounts@.map_values(|a: AccountReference| a@),
            data: self.data@,
        }
    }
}

impl Instruction {
    /// A copy of the instruction.
    pub fn duplicate(&self) -> (copy: Instruction)
        ensures
            copy@ == self@,
    {
        let mut accounts: Vec<AccountReference> = Vec::new();
        let mut i: usize = 0;
        while i < self.accounts.len()
            invariant
                i <= self.accounts.len(),
                accounts@.len() == i,
                forall|j: int| 0 <= j < i ==> accounts@[j] == self.accounts@[j],
            decreases self.accounts.len() - i,
        {
            accounts.push(self.accounts[i]);
            i += 1;
        }
        let mut data: Vec<u8> = Vec::new();
        let mut k: usize = 0;
        while k < self.data.len()
            invariant
                k <= self.data.len(),
                data@.len() == k,
                forall|j: int| 0 <= j < k ==> data@[j] == self.data@[j],
            decreases self.data.len() - k,
        {
            data.push(self.data[k]);
            k += 1;
        }
        let copy = Instruction { program: self.program, accounts, data };
        assert(copy@.accounts =~= self@.accounts);
        assert(copy@.data =~= self@.data);
        copy
    }
}

/// The instruction that creates the protocol's configuration account.
///
/// The administrator is named without a signature: the program compares
/// its address with the one it knows.
pub open spec fn create_config_instruction(
    program: Seq<u8>,
    admin_key: Seq<u8>,
    payer: Seq<u8>,
    config_address: Seq<u8>,
    pnl_owner: Seq<u8>,
) -> InstructionView {
    InstructionView {
        program,
        accounts: seq![
            writable(config_address, false),
            readonly(admin_key, false),
            writable(payer, true),
            readonly(pnl_owner, false),
            readonly(SYSTEM_PROGRAM_BYTES@, false),
            readonly(RENT_SYSVAR_BYTES@, false),
        ],
        data: encoded(Opcode::CreateConfigAccount, Seq::empty()),
    }
}

/// The instruction that withdraws a pool's liquidity to the withdrawer's
/// token accounts.
pub open spec fn owner_withdraw_instruction(
    program: Seq<u8>,
    pool: Seq<u8>,
    authority: Seq<u8>,
    open_orders: Seq<u8>,
    coin_mint: Seq<u8>,
    pc_mint: Seq<u8>,
    coin_vault: Seq<u8>,
    pc_vault: Seq<u8>,
    user_coin_account: Seq<u8>,
    user_pc_account: Seq<u8>,
    withdrawer: Seq<u8>,
    target_orders: Seq<u8>,
    payer: Seq<u8>,
) -> InstructionView {
    InstructionView {
        program,
        accounts: seq![
            writable(pool, false),
            readonly(authority, false),
            writable(open_orders, false),
            writable(coin_vault, false),
            writable(pc_vault, false),
            readonly(coin_mint, false),
            readonly(pc_mint, false),
            writable(user_coin_account, false),
            writable(user_pc_account, false),
            readonly(withdrawer, false),
            writable(target_orders, false),
            readonly(payer, true),
        ],
        data: encoded(Opcode::OwnerWithdraw, Seq::empty()),
    }
}

/// Builds the instruction that creates the configuration account.
pub fn build_create_config(
    program: &Address,
    admin_key: &Address,
    payer: &Address,
    config_address: &Address,
    pnl_owner: &Address,
) -> (ix: Instruction)
    ensures
        ix@ == create_config_instruction(
            program@,
            admin_key@,
            payer@,
            config_address@,
            pnl_owner@,
        ),
        decoded(ix.data@) == Ok::<(Opcode, Seq<u8>), PayloadError>(
            (Opcode::CreateConfigAccount, Seq::empty()),
        ),
{
    let mut accounts: Vec<AccountReference> = Vec::new();
    accounts.push(AccountReference::writable(*config_address, false));
    accounts.push(AccountReference::readonly(*admin_key, false));
    accounts.push(AccountReference::writable(*payer, true));
    accounts.push(AccountReference::readonly(*pnl_owner, false));
    accounts.push(AccountReference::readonly(Address::system_program(), false));
    accounts.push(AccountReference::readonly(Address::rent_sysvar(), false));
    let arguments: Vec<u8> = Vec::new();
    let data = encode_payload(Opcode::CreateConfigAccount, arguments.as_slice());
    let ix = Instruction { program: *program, accounts, data };
    assert(arguments@ =~= Seq::<u8>::empty());
    assert(ix@.accounts =~= create_config_instruction(
        program@,
        admin_key@,
        payer@,
        config_address@,
        pnl_owner@,
    ).accounts);
    ix
}

/// Builds the instruction that withdraws a pool's liquidity.
pub fn build_owner_withdraw(
    program: &Address,
    pool: &Address,
    authority: &Address,
    open_orders: &Address,
    coin_mint: &Address,
    pc_mint: &Address,
    coin_vault: &Address,
    pc_vault: &Address,
    user_coin_account: &Address,
    user_pc_account: &Address,
    withdrawer: &Address,
    target_orders: &Address,
    payer: &Address,
) -> (ix: Instruction)
    ensures
        ix@ == owner_withdraw_instruction(
            program@,
            pool@,
            authority@,
            open_orders@,
            coin_mint@,
            pc_mint@,
            coin_vault@,
            pc_vault@,
            user_coin_account@,
            user_pc_account@,
            withdrawer@,
            target_orders@,
            payer@,
        ),
        decoded(ix.data@) == Ok::<(Opcode, Seq<u8>), PayloadError>(
            (Opcode::OwnerWithdraw, Seq::empty()),
        ),
{
    let mut accounts: Vec<AccountReference> = Vec::new();
    accounts.push(AccountReference::writable(*pool, false));
    accounts.push(AccountReference::readonly(*authority, false));
    accounts.push(AccountReference::writable(*open_orders, false));
    accounts.push(AccountReference::writable(*coin_vault, false));
    accounts.push(AccountReference::writable(*pc_vault, false));
    accounts.push(AccountReference::readonly(*coin_mint, false));
    accounts.push(AccountReference::readonly(*pc_mint, false));
    accounts.push(AccountReference::writable(*user_coin_account, false));
    accounts.push(AccountReference::writable(*user_pc_account, false));
    accounts.push(AccountReference::readonly(*withdrawer, false));
    accounts.push(AccountReference::writable(*target_orders, false));
    accounts.push(AccountReference::readonly(*payer, true));
    let arguments: Vec<u8> = Vec::new();
    let data = encode_payload(Opcode::OwnerWithdraw, arguments.as_slice());
    let ix = Instruction { program: *program, accounts, data };
    assert(arguments@ =~= Seq::<u8>::empty());
    assert(ix@.accounts =~= owner_withdraw_instruction(
        program@,
        pool@,
        authority@,
        open_orders@,
        coin_mint@,
        pc_mint@,
        coin_vault@,
        pc_vault@,
        user_coin_account@,
        user_pc_account@,
        withdrawer@,
        target_orders@,
        payer@,
    ).accounts);
    ix
}

} // verus!
