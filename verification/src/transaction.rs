//! Assembling and signing a transaction of one instruction.

use crate::address::Address;
use crate::instruction::{AccountRole, Instruction, InstructionView};
use crate::keys::{secret_half, spec_signature, KeyPair, Signature};
use solana_sdk::instruction::AccountMeta;
use solana_sdk::message::Message;
use solana_sdk::pubkey::Pubkey;
use vstd::prelude::*;

verus! {

/// The most accounts that an instruction of a signed transaction may
/// name.
pub const MAX_INSTRUCTION_ACCOUNTS: usize = 254;

/// The most bytes that the payload of such an instruction may hold.
pub const MAX_PAYLOAD_BYTES: usize = 65535;

/// A recent checkpoint of the network, which a transaction refers to and
/// which expires after a short while.
#[derive(Clone, Copy, Debug, PartialEq, Eq)]
pub struct Checkpoint {
    pub bytes: [u8; 32],
}

impl View for Checkpoint {
    type V = Seq<u8>;

    open spec fn view(&self) -> Seq<u8> {
        self.bytes@
    }
}

/// The bytes that `Message::new_with_blockhash` and `Message::serialize`
/// give for one instruction, a fee payer and a checkpoint: the message
/// that the signers of the transaction sign.
pub uninterp spec fn spec_message_bytes(
    payer: Seq<u8>,
    instruction: InstructionView,
    checkpoint: Seq<u8>,
) -> Seq<u8>;

/// Calls `Message::new_with_blockhash` on the one instruction, with the
/// fee payer and the checkpoint, and `Message::serialize` on the message.
/// The first panics where more than 255 accounts fall into one class, the
/// second where a list is longer than 65535 entries: the bounds that are
/// required keep clear of both. The contract names the bytes.
#[verifier::external_body]
fn message_bytes(payer: &Address, instruction: &Instruction, checkpoint: &Checkpoint) -> (res: Vec<
    u8,
>)
    requires
        instruction.accounts@.len() <= MAX_INSTRUCTION_ACCOUNTS,
        instruction.data@.len() <= MAX_PAYLOAD_BYTES,
    ensures
        res@ == spec_message_bytes(payer@, instruction@, checkpoint@),
{
    let accounts = instruction.accounts.iter().map(|a| AccountMeta {
        pubkey: Pubkey::new_from_array(a.address.bytes),
        is_signer: a.is_signer,
        is_writable: a.is_writable,
    }).collect();
    let program_id = Pubkey::new_from_array(instruction.program.bytes);
    let ix = solana_sdk::instruction::Instruction { program_id, accounts, data: instruction.data.clone() };
    let payer = Pubkey::new_from_array(payer.bytes);
    Message::new_with_blockhash(&[ix], Some(&payer), &solana_sdk::hash::Hash::new_from_array(checkpoint.bytes)).serialize()
}

/// The addresses that must sign: the fee payer, then each account that is
/// flagged as a signer, in the order of its first appearance, each once.
pub open spec fn required_signers(payer: Seq<u8>, accounts: Seq<AccountRole>) -> Seq<Seq<u8>>
    decreases accounts.len(),
{
    if accounts.len() == 0 {
        seq![payer]
    } else {
        let earlier = required_signers(payer, accounts.drop_last());
        let last = accounts.last();
        if last.is_signer && !earlier.contains(last.address) {
            earlier.push(last.address)
        } else {
            earlier
        }
    }
}

/// Whether an address must sign: it is the fee payer or an account that
/// is flagged as a signer.
pub open spec fn must_sign(payer: Seq<u8>, accounts: Seq<AccountRole>, address: Seq<u8>) -> bool {
    address == payer || exists|i: int|
        0 <= i < accounts.len() && (#[trigger] accounts[i]).is_signer && accounts[i].address
            == address
}

/// The required signers start with the fee payer, hold no address twice,
/// and hold exactly the addresses that must sign.
pub proof fn required_signers_are_the_distinct_signers(payer: Seq<u8>, accounts: Seq<AccountRole>)
    ensures
        required_signers(payer, accounts).len() >= 1,
        required_signers(payer, accounts).len() <= accounts.len() + 1,
        required_signers(payer, accounts)[0] == payer,
        required_signers(payer, accounts).no_duplicates(),
        forall|address: Seq<u8>| #[trigger]
            required_signers(payer, accounts).contains(address) <==> must_sign(
                payer,
                accounts,
                address,
            ),
    decreases accounts.len(),
{
    let all = required_signers(payer, accounts);
    if accounts.len() == 0 {
        assert(all[0] == payer);
        assert forall|address: Seq<u8>| #[trigger] all.contains(address) <==> must_sign(
            payer,
            accounts,
            address,
        ) by {
            if all.contains(address) {
                let i = choose|i: int| 0 <= i < all.len() && all[i] == address;
                assert(address == payer);
            }
        }
    } else {
        let front = accounts.drop_last();
        let earlier = required_signers(payer, front);
        let last = accounts.last();
        required_signers_are_the_distinct_signers(payer, front);
        assert forall|address: Seq<u8>| #[trigger] all.contains(address) <==> must_sign(
            payer,
            accounts,
            address,
        ) by {
            if all.contains(address) {
                let i = choose|i: int| 0 <= i < all.len() && all[i] == address;
                if i < earlier.len() {
                    assert(earlier[i] == address);
                    assert(earlier.contains(address));
                    assert(must_sign(payer, front, address));
                    if address != payer {
                        let k = choose|k: int|
                            0 <= k < front.len() && (#[trigger] front[k]).is_signer
                                && front[k].address == address;
                        assert(accounts[k] == front[k]);
                    }
                } else {
                    assert(address == last.address);
                    assert(accounts[accounts.len() - 1].is_signer);
                }
            }
            if must_sign(payer, accounts, address) {
                if address == payer {
                    assert(all[0] == payer);
                } else {
                    let k = choose|k: int|
                        0 <= k < accounts.len() && (#[trigger] accounts[k]).is_signer
                            && accounts[k].address == address;
                    if k < front.len() {
                        assert(front[k] == accounts[k]);
                        assert(must_sign(payer, front, address));
                        assert(earlier.contains(address));
                        let i = choose|i: int| 0 <= i < earlier.len() && earlier[i] == address;
                        assert(all[i] == address);
                    } else {
                        assert(accounts[k] == last);
                        if earlier.contains(address) {
                            let i = choose|i: int| 0 <= i < earlier.len() && earlier[i] == address;
                            assert(all[i] == address);
                        } else {
                            assert(all[all.len() - 1] == address);
                        }
                    }
                }
            }
        }
    }
}

/// The addresses of a list, as plain values.
pub open spec fn address_views(addresses: Seq<Address>) -> Seq<Seq<u8>> {
    addresses.map_values(|a: Address| a@)
}

/// Whether a list of addresses holds one.
fn holds_address(addresses: &Vec<Address>, address: &Address) -> (found: bool)
    ensures
        found == address_views(addresses@).contains(address@),
{
    let mut i: usize = 0;
    while i < addresses.len()
        invariant
            i <= addresses.len(),
            forall|j: int| 0 <= j < i ==> addresses@[j]@ != address@,
        decreases addresses.len() - i,
    {
        if addresses[i].same_as(address) {
            assert(address_views(addresses@)[i as int] == address@);
            return true;
        }
        i += 1;
    }
    false
}

/// Collects the addresses that must sign a transaction of the
/// instruction with the fee payer.
pub fn collect_required_signers(payer: &Address, instruction: &Instruction) -> (signers: Vec<
    Address,
>)
    ensures
        address_views(signers@) == required_signers(payer@, instruction@.accounts),
        signers@.len() >= 1,
        signers@.len() <= instruction.accounts@.len() + 1,
{
    let ghost accounts = instruction@.accounts;
    let mut signers: Vec<Address> = Vec::new();
    signers.push(*payer);
    assert(accounts.take(0) =~= Seq::<AccountRole>::empty());
    assert(address_views(signers@) =~= required_signers(payer@, accounts.take(0)));
    let mut i: usize = 0;
    while i < instruction.accounts.len()
        invariant
            i <= instruction.accounts.len(),
            accounts == instruction@.accounts,
            accounts.len() == instruction.accounts@.len(),
            address_views(signers@) == required_signers(payer@, accounts.take(i as int)),
            signers@.len() >= 1,
            signers@.len() <= i + 1,
        decreases instruction.accounts.len() - i,
    {
        let account = &instruction.accounts[i];
        let ghost before = address_views(signers@);
        assert(accounts.take(i + 1).drop_last() =~= accounts.take(i as int));
        assert(accounts.take(i + 1).last() == account@);
        if account.is_signer && !holds_address(&signers, &account.address) {
            signers.push(account.address);
            assert(address_views(signers@) =~= before.push(account.address@));
        }
        i += 1;
    }
    assert(accounts.take(i as int) =~= accounts);
    signers
}

/// The identifier of a submitted transaction.
#[derive(Clone, Copy, Debug, PartialEq, Eq)]
pub struct TransactionId {
    pub bytes: [u8; 64],
}

impl View for TransactionId {
    type V = Seq<u8>;

    open spec fn view(&self) -> Seq<u8> {
        self.bytes@
    }
}

/// One signature of a transaction, with the address that it signs for.
#[derive(Clone, Copy, Debug, PartialEq, Eq)]
pub struct SignatureEntry {
    pub signer: Address,
    pub signature: Signature,
}

/// A transaction of one instruction with the signatures of its required
/// signers over its message.
#[derive(Clone, Debug, PartialEq, Eq)]
pub struct SignedTransaction {
    pub fee_payer: Address,
    pub instruction: Instruction,
    pub checkpoint: Checkpoint,
    pub message: Vec<u8>,
    pub signatures: Vec<SignatureEntry>,
}

impl SignedTransaction {
    /// The addresses that the signatures sign for, in order.
    pub open spec fn signers(&self) -> Seq<Seq<u8>> {
        self.signatures@.map_values(|e: SignatureEntry| e.signer@)
    }

    /// The transaction holds one signature for each address that must
    /// sign it, and no other.
    pub open spec fn is_complete(&self) -> bool {
        self.signers() == required_signers(self.fee_payer@, self.instruction@.accounts)
    }
}

/// The set of the addresses that must sign.
pub open spec fn distinct_signers(payer: Seq<u8>, accounts: Seq<AccountRole>) -> Set<Seq<u8>> {
    Set::new(|address: Seq<u8>| must_sign(payer, accounts, address))
}

/// A complete transaction holds as many signatures as its instruction
/// and its fee payer name distinct signers, one for each of them.
pub proof fn complete_transaction_is_fully_signed(tx: SignedTransaction)
    requires
        tx.is_complete(),
    ensures
        distinct_signers(tx.fee_payer@, tx.instruction@.accounts).finite(),
        tx.signatures@.len() == distinct_signers(tx.fee_payer@, tx.instruction@.accounts).len(),
        tx.signers().no_duplicates(),
        forall|address: Seq<u8>|
            must_sign(tx.fee_payer@, tx.instruction@.accounts, address) ==> #[trigger] tx.signers().contains(
                address,
            ),
{
    let payer = tx.fee_payer@;
    let accounts = tx.instruction@.accounts;
    let required = required_signers(payer, accounts);
    required_signers_are_the_distinct_signers(payer, accounts);
    assert(tx.signers().len() == tx.signatures@.len());
    assert forall|address: Seq<u8>|
        must_sign(payer, accounts, address) implies #[trigger] tx.signers().contains(address) by {
        assert(required.contains(address));
    }
    assert(required.to_set() =~= distinct_signers(payer, accounts)) by {
        assert forall|address: Seq<u8>|
            required.to_set().contains(address) <==> distinct_signers(payer, accounts).contains(
                address,
            ) by {
            assert(required.contains(address) <==> must_sign(payer, accounts, address));
        }
    }
    required.unique_seq_to_set();
    vstd::seq_lib::seq_to_set_is_finite(required);
}

/// Why a transaction was not signed.
#[derive(Clone, Copy, Debug, PartialEq, Eq)]
pub enum SigningError {
    /// The instruction names more accounts than a transaction can carry.
    TooManyAccounts,
    /// The payload is longer than a transaction can carry.
    PayloadTooLarge,
    /// No key pair was given for an address that must sign.
    MissingSigner(Address),
}

/// The key pairs at hand: the fee payer's, then the other signers'.
pub open spec fn keys_at_hand(fee_payer: KeyPair, signers: Seq<KeyPair>) -> Seq<KeyPair> {
    seq![fee_payer] + signers
}

/// Some key pair of the list signs for the address.
pub open spec fn has_key(keys: Seq<KeyPair>, address: Seq<u8>) -> bool {
    exists|i: int| 0 <= i < keys.len() && (#[trigger] keys[i]).spec_address() == address
}

/// The key pair at `index` is the first of the list that signs for the
/// address.
pub open spec fn is_first_key(keys: Seq<KeyPair>, address: Seq<u8>, index: int) -> bool {
    &&& 0 <= index < keys.len()
    &&& keys[index].spec_address() == address
    &&& forall|j: int| 0 <= j < index ==> (#[trigger] keys[j]).spec_address() != address
}

/// `entry` is the signature over `message` of the first key pair at hand
/// that signs for `address`.
pub open spec fn is_signature_of(
    keys: Seq<KeyPair>,
    address: Seq<u8>,
    message: Seq<u8>,
    entry: SignatureEntry,
) -> bool {
    &&& entry.signer@ == address
    &&& exists|k: int| #[trigger]
        is_first_key(keys, address, k) && entry.signature@ == spec_signature(
            secret_half(keys[k]@),
            message,
        )
}

/// The instruction fits into a transaction.
pub open spec fn fits(instruction: InstructionView) -> bool {
    instruction.accounts.len() <= MAX_INSTRUCTION_ACCOUNTS && instruction.data.len()
        <= MAX_PAYLOAD_BYTES
}

/// `address` is the first required signer without a key pair at hand.
pub open spec fn is_first_missing(keys: Seq<KeyPair>, required: Seq<Seq<u8>>, address: Seq<u8>) -> bool {
    exists|i: int|
        0 <= i < required.len() && #[trigger] required[i] == address && !has_key(keys, address)
            && forall|j: int| 0 <= j < i ==> has_key(keys, #[trigger] required[j])
}

/// Why, and whether, signing fails: on the instruction and the key pairs
/// alone, whatever the checkpoint.
pub open spec fn signing_failure(
    instruction: InstructionView,
    fee_payer: KeyPair,
    signers: Seq<KeyPair>,
    error: SigningError,
) -> bool {
    let keys = keys_at_hand(fee_payer, signers);
    let required = required_signers(fee_payer.spec_address(), instruction.accounts);
    match error {
        SigningError::TooManyAccounts => instruction.accounts.len() > MAX_INSTRUCTION_ACCOUNTS,
        SigningError::PayloadTooLarge => instruction.accounts.len() <= MAX_INSTRUCTION_ACCOUNTS
            && instruction.data.len() > MAX_PAYLOAD_BYTES,
        SigningError::MissingSigner(address) => fits(instruction) && is_first_missing(
            keys,
            required,
            address@,
        ),
    }
}

/// The instruction fits into a transaction and every required signer has
/// a key pair at hand.
pub open spec fn ready_to_sign(
    instruction: InstructionView,
    fee_payer: KeyPair,
    signers: Seq<KeyPair>,
) -> bool {
    let keys = keys_at_hand(fee_payer, signers);
    let required = required_signers(fee_payer.spec_address(), instruction.accounts);
    fits(instruction) && forall|i: int|
        0 <= i < required.len() ==> has_key(keys, #[trigger] required[i])
}

/// Where everything is ready to sign, signing does not fail.
pub proof fn ready_to_sign_excludes_failure(
    instruction: InstructionView,
    fee_payer: KeyPair,
    signers: Seq<KeyPair>,
    error: SigningError,
)
    requires
        ready_to_sign(instruction, fee_payer, signers),
    ensures
        !signing_failure(instruction, fee_payer, signers, error),
{
}

/// What `sign_transaction` returns.
pub open spec fn signing_outcome(
    instruction: InstructionView,
    fee_payer: KeyPair,
    signers: Seq<KeyPair>,
    checkpoint: Checkpoint,
    res: Result<SignedTransaction, SigningError>,
) -> bool {
    let keys = keys_at_hand(fee_payer, signers);
    let payer = fee_payer.spec_address();
    let required = required_signers(payer, instruction.accounts);
    match res {
        Ok(tx) => {
            &&& fits(instruction)
            &&& tx.fee_payer@ == payer
            &&& tx.instruction@ == instruction
            &&& tx.checkpoint == checkpoint
            &&& tx.message@ == spec_message_bytes(payer, instruction, checkpoint@)
            &&& tx.signatures@.len() == required.len()
            &&& forall|i: int|
                0 <= i < required.len() ==> is_signature_of(
                    keys,
                    required[i],
                    tx.message@,
                    #[trigger] tx.signatures@[i],
                )
        },
        Err(error) => signing_failure(instruction, fee_payer, signers, error),
    }
}

/// Finds the first key pair at hand that signs for an address: index 0 is
/// the fee payer's, index `i + 1` is `signers[i]`.
fn find_key(fee_payer: &KeyPair, signers: &Vec<KeyPair>, address: &Address) -> (found: Option<
    usize,
>)
    ensures
        match found {
            Some(k) => is_first_key(keys_at_hand(*fee_payer, signers@), address@, k as int),
            None => !has_key(keys_at_hand(*fee_payer, signers@), address@),
        },
{
    let ghost keys = keys_at_hand(*fee_payer, signers@);
    if fee_payer.address().same_as(address) {
        return Some(0);
    }
    let mut i: usize = 0;
    while i < signers.len()
        invariant
            i <= signers.len(),
            keys == keys_at_hand(*fee_payer, signers@),
            forall|j: int| 0 <= j < i + 1 ==> (#[trigger] keys[j]).spec_address() != address@,
        decreases signers.len() - i,
    {
        assert(keys[i + 1] == signers@[i as int]);
        if signers[i].address().same_as(address) {
            return Some(i + 1);
        }
        i += 1;
    }
    None
}

/// Checks, before any checkpoint is at hand, that a transaction of the
/// instruction can be signed with the key pairs: that the instruction
/// fits and that each required signer has a key pair.
pub fn check_signers(instruction: &Instruction, fee_payer: &KeyPair, signers: &Vec<KeyPair>) -> (res:
    Result<(), SigningError>)
    ensures
        match res {
            Ok(_) => ready_to_sign(instruction@, *fee_payer, signers@),
            Err(error) => signing_failure(instruction@, *fee_payer, signers@, error),
        },
{
    if instruction.accounts.len() > MAX_INSTRUCTION_ACCOUNTS {
        return Err(SigningError::TooManyAccounts);
    }
    if instruction.data.len() > MAX_PAYLOAD_BYTES {
        return Err(SigningError::PayloadTooLarge);
    }
    let payer = fee_payer.address();
    let required = collect_required_signers(&payer, instruction);
    let ghost keys = keys_at_hand(*fee_payer, signers@);
    let ghost wanted = required_signers(payer@, instruction@.accounts);
    let mut i: usize = 0;
    while i < required.len()
        invariant
            i <= required.len(),
            fits(instruction@),
            keys == keys_at_hand(*fee_payer, signers@),
            wanted == address_views(required@),
            wanted == required_signers(fee_payer.spec_address(), instruction@.accounts),
            forall|j: int| 0 <= j < i ==> has_key(keys, #[trigger] wanted[j]),
        decreases required.len() - i,
    {
        let address = required[i];
        assert(wanted[i as int] == address@);
        if find_key(fee_payer, signers, &address).is_none() {
            assert(is_first_missing(keys, wanted, address@));
            return Err(SigningError::MissingSigner(address));
        }
        i += 1;
    }
    Ok(())
}

/// Assembles the transaction of one instruction and signs it: one
/// signature for the fee payer and for each account that is flagged as a
/// signer, each by the first key pair at hand that signs for the address.
/// Key pairs that sign for no such address are left aside. Fails where
/// the instruction does not fit into a transaction or where a required
/// signer has no key pair at hand, and names the first such address.
pub fn sign_transaction(
    instruction: Instruction,
    fee_payer: &KeyPair,
    signers: &Vec<KeyPair>,
    checkpoint: Checkpoint,
) -> (res: Result<SignedTransaction, SigningError>)
    ensures
        signing_outcome(instruction@, *fee_payer, signers@, checkpoint, res),
        res matches Ok(tx) ==> tx.is_complete(),
{
    if instruction.accounts.len() > MAX_INSTRUCTION_ACCOUNTS {
        return Err(SigningError::TooManyAccounts);
    }
    if instruction.data.len() > MAX_PAYLOAD_BYTES {
        return Err(SigningError::PayloadTooLarge);
    }
    let payer = fee_payer.address();
    let required = collect_required_signers(&payer, &instruction);
    let message = message_bytes(&payer, &instruction, &checkpoint);
    let ghost keys = keys_at_hand(*fee_payer, signers@);
    let ghost wanted = required_signers(payer@, instruction@.accounts);
    let mut signatures: Vec<SignatureEntry> = Vec::new();
    let mut i: usize = 0;
    while i < required.len()
        invariant
            i <= required.len(),
            fits(instruction@),
            keys == keys_at_hand(*fee_payer, signers@),
            wanted == address_views(required@),
            wanted == required_signers(fee_payer.spec_address(), instruction@.accounts),
            signatures@.len() == i,
            forall|j: int|
                0 <= j < i ==> is_signature_of(keys, wanted[j], message@, #[trigger] signatures@[j]),
            forall|j: int| 0 <= j < i ==> has_key(keys, #[trigger] wanted[j]),
        decreases required.len() - i,
    {
        let address = required[i];
        assert(wanted[i as int] == address@);
        match find_key(fee_payer, signers, &address) {
            Some(k) => {
                let signature = if k == 0 {
                    fee_payer.sign(message.as_slice())
                } else {
                    signers[k - 1].sign(message.as_slice())
                };
                assert(keys[k as int] == if k == 0 {
                    *fee_payer
                } else {
                    signers@[k - 1]
                });
                let entry = SignatureEntry { signer: address, signature };
                assert(is_first_key(keys, address@, k as int) && entry.signature@
                    == spec_signature(secret_half(keys[k as int]@), message@));
                signatures.push(entry);
            },
            None => {
                assert(is_first_missing(keys, wanted, address@));
                return Err(SigningError::MissingSigner(address));
            },
        }
        i += 1;
    }
    let tx = SignedTransaction { fee_payer: payer, instruction, checkpoint, message, signatures };
    assert(tx.signers() =~= wanted);
    Ok(tx)
}

} // verus!
