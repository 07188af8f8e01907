//! The decisions of the submission loop: what to do next, given what the
//! network answered.
//!
//! A caller performs each `Action` and hands the outcome back as an
//! `Event`. The loop starts by fetching a checkpoint, signs under it,
//! broadcasts, and, where asked to, polls until the transaction reaches a
//! final status or the wait is over.

use crate::failure::{Failure, PreconditionError};
use crate::instruction::{Instruction, InstructionView};
use crate::keys::KeyPair;
use crate::transaction::{
    check_signers, ready_to_sign, sign_transaction, signing_outcome, Checkpoint,
    SignedTransaction, TransactionId,
};
use vstd::prelude::*;

verus! {

/// How often and how patiently the network is tried.
#[derive(Clone, Copy, Debug, PartialEq, Eq, Structural)]
pub struct RetryPolicy {
    /// The most attempts at fetching one checkpoint, and the most
    /// broadcasts in all.
    pub max_attempts: u32,
    /// The delay before the first retry; the n-th retry waits n times as
    /// long.
    pub backoff_ms: u64,
    /// The most status polls after a transaction was accepted.
    pub max_polls: u32,
    /// The delay before each status poll.
    pub poll_interval_ms: u64,
}

/// Where a submission stands.
#[derive(Clone, Debug, PartialEq, Eq)]
pub enum Phase {
    /// A checkpoint was asked for.
    AwaitingCheckpoint,
    /// The transaction was handed over for broadcast.
    AwaitingAcceptance(SignedTransaction),
    /// The transaction was accepted, and its status was asked for.
    AwaitingConfirmation(TransactionId),
    /// The submission is over.
    Finished,
}

/// What the network answered.
#[derive(Clone, Debug, PartialEq, Eq)]
pub enum Event {
    /// The latest checkpoint.
    CheckpointFetched(Checkpoint),
    /// The request failed in transit: a timeout, a reset connection.
    NetworkFailed,
    /// The transaction was turned down because its checkpoint expired.
    CheckpointExpired,
    /// The transaction was turned down for another reason.
    Rejected(String),
    /// The transaction was accepted for processing.
    Accepted(TransactionId),
    /// The transaction is confirmed.
    Confirmed,
    /// The transaction was processed and failed.
    Failed(String),
    /// The transaction has no final status yet.
    Pending,
}

/// What to do next.
#[derive(Debug, PartialEq, Eq)]
pub enum Action {
    /// Wait, then fetch the latest checkpoint.
    FetchCheckpoint { delay_ms: u64 },
    /// Wait, then broadcast the transaction that the submission holds.
    Broadcast { delay_ms: u64 },
    /// Wait, then ask for the status of the accepted transaction.
    PollStatus { delay_ms: u64 },
    /// Stop, with this result.
    Finish(Result<TransactionId, Failure>),
}

/// A submission in progress.
pub struct Submission {
    instruction: Instruction,
    fee_payer: KeyPair,
    signers: Vec<KeyPair>,
    require_confirmation: bool,
    policy: RetryPolicy,
    phase: Phase,
    fetches: u32,
    broadcasts: u32,
    polls: u32,
}

/// A submission over plain values: what is to be submitted and how, where
/// the submission stands, and how many fetches of the current checkpoint,
/// broadcasts in all and status polls were asked for.
pub ghost struct SubmissionView {
    pub instruction: InstructionView,
    pub fee_payer: KeyPair,
    pub signers: Seq<KeyPair>,
    pub require_confirmation: bool,
    pub policy: RetryPolicy,
    pub phase: Phase,
    pub fetches: u32,
    pub broadcasts: u32,
    pub polls: u32,
}

impl View for Submission {
    type V = SubmissionView;

    closed spec fn view(&self) -> SubmissionView {
        SubmissionView {
            instruction: self.instruction@,
            fee_payer: self.fee_payer,
            signers: self.signers@,
            require_confirmation: self.require_confirmation,
            policy: self.policy,
            phase: self.phase,
            fetches: self.fetches,
            broadcasts: self.broadcasts,
            polls: self.polls,
        }
    }
}

/// The delay before a retry, after so many failed attempts: the base
/// delay times their number, or the largest delay where that overflows.
pub open spec fn backoff_delay(base_ms: u64, failures: u32) -> u64 {
    if base_ms * failures <= u64::MAX {
        (base_ms * failures) as u64
    } else {
        u64::MAX
    }
}

/// The submission as it was, in another phase and with other counts.
pub open spec fn moved(
    s: SubmissionView,
    phase: Phase,
    fetches: int,
    broadcasts: int,
    polls: int,
) -> SubmissionView {
    SubmissionView {
        phase,
        fetches: fetches as u32,
        broadcasts: broadcasts as u32,
        polls: polls as u32,
        ..s
    }
}

/// The submission as it was, finished.
pub open spec fn finished(s: SubmissionView) -> SubmissionView {
    SubmissionView { phase: Phase::Finished, ..s }
}

/// After a failed fetch: fetch again, later, while attempts are left.
pub open spec fn after_failed_fetch(s: SubmissionView) -> (SubmissionView, Action) {
    if s.fetches < s.policy.max_attempts {
        (
            moved(s, Phase::AwaitingCheckpoint, s.fetches + 1, s.broadcasts as int, s.polls as int),
            Action::FetchCheckpoint { delay_ms: backoff_delay(s.policy.backoff_ms, s.fetches) },
        )
    } else {
        (finished(s), Action::Finish(Err(Failure::Network)))
    }
}

/// After a broadcast that failed in transit: broadcast the same signed
/// transaction again, later, while attempts are left.
pub open spec fn after_failed_broadcast(s: SubmissionView, tx: SignedTransaction) -> (
    SubmissionView,
    Action,
) {
    if s.broadcasts < s.policy.max_attempts {
        (
            moved(
                s,
                Phase::AwaitingAcceptance(tx),
                s.fetches as int,
                s.broadcasts + 1,
                s.polls as int,
            ),
            Action::Broadcast { delay_ms: backoff_delay(s.policy.backoff_ms, s.broadcasts) },
        )
    } else {
        (finished(s), Action::Finish(Err(Failure::Network)))
    }
}

/// After the checkpoint expired: fetch a new one, to sign under it, while
/// a broadcast is left.
pub open spec fn after_expired_checkpoint(s: SubmissionView) -> (SubmissionView, Action) {
    if s.broadcasts < s.policy.max_attempts {
        (
            moved(s, Phase::AwaitingCheckpoint, 1, s.broadcasts as int, s.polls as int),
            Action::FetchCheckpoint { delay_ms: 0 },
        )
    } else {
        (finished(s), Action::Finish(Err(Failure::StaleCheckpoint)))
    }
}

/// While no final status is known: poll, while polls are left; then give
/// up, and say that the transaction may still land.
pub open spec fn after_no_status(s: SubmissionView, id: TransactionId, polls: u32) -> (
    SubmissionView,
    Action,
) {
    if polls < s.policy.max_polls {
        (
            moved(
                s,
                Phase::AwaitingConfirmation(id),
                s.fetches as int,
                s.broadcasts as int,
                polls + 1,
            ),
            Action::PollStatus { delay_ms: s.policy.poll_interval_ms },
        )
    } else {
        (finished(s), Action::Finish(Err(Failure::AmbiguousTimeout(id))))
    }
}

/// After the transaction was accepted: done, unless confirmation is asked
/// for.
pub open spec fn after_acceptance(s: SubmissionView, id: TransactionId) -> (SubmissionView, Action) {
    if s.require_confirmation {
        after_no_status(s, id, 0)
    } else {
        (finished(s), Action::Finish(Ok(id)))
    }
}

/// After an event that answers nothing that was asked for.
pub open spec fn after_unexpected_event(s: SubmissionView) -> (SubmissionView, Action) {
    (
        finished(s),
        Action::Finish(Err(Failure::Precondition(PreconditionError::UnexpectedEvent))),
    )
}

/// After a checkpoint arrived: the submission holds a transaction that is
/// signed under that checkpoint, and asks for its broadcast.
pub open spec fn after_checkpoint(
    s: SubmissionView,
    checkpoint: Checkpoint,
    next: SubmissionView,
    action: Action,
) -> bool {
    &&& next.phase matches Phase::AwaitingAcceptance(tx)
    &&& signing_outcome(s.instruction, s.fee_payer, s.signers, checkpoint, Ok(tx))
    &&& tx.is_complete()
    &&& next == moved(s, next.phase, s.fetches as int, s.broadcasts + 1, s.polls as int)
    &&& action == Action::Broadcast { delay_ms: 0 }
}

/// The step from a submission and an event to the next submission and
/// the action to take.
pub open spec fn transition(
    s: SubmissionView,
    event: Event,
    next: SubmissionView,
    action: Action,
) -> bool {
    match s.phase {
        Phase::AwaitingCheckpoint => match event {
            Event::CheckpointFetched(checkpoint) => after_checkpoint(s, checkpoint, next, action),
            Event::NetworkFailed => (next, action) == after_failed_fetch(s),
            _ => (next, action) == after_unexpected_event(s),
        },
        Phase::AwaitingAcceptance(tx) => match event {
            Event::Accepted(id) => (next, action) == after_acceptance(s, id),
            Event::NetworkFailed => (next, action) == after_failed_broadcast(s, tx),
            Event::CheckpointExpired => (next, action) == after_expired_checkpoint(s),
            Event::Rejected(reason) => (next, action) == (
                finished(s),
                Action::Finish(Err(Failure::Rejected(reason))),
            ),
            _ => (next, action) == after_unexpected_event(s),
        },
        Phase::AwaitingConfirmation(id) => match event {
            Event::Confirmed => (next, action) == (finished(s), Action::Finish(Ok(id))),
            Event::Failed(reason) => (next, action) == (
                finished(s),
                Action::Finish(Err(Failure::Rejected(reason))),
            ),
            Event::Pending => (next, action) == after_no_status(s, id, s.polls),
            Event::NetworkFailed => (next, action) == after_no_status(s, id, s.polls),
            _ => (next, action) == after_unexpected_event(s),
        },
        Phase::Finished => (next, action) == after_unexpected_event(s),
    }
}

/// After an expired checkpoint nothing is broadcast: either a new
/// checkpoint is fetched, and the stale transaction is dropped, or the
/// submission ends with the stale checkpoint as its failure.
pub proof fn expired_checkpoint_is_never_rebroadcast(
    s: SubmissionView,
    next: SubmissionView,
    action: Action,
)
    requires
        transition(s, Event::CheckpointExpired, next, action),
    ensures
        !(action is Broadcast),
        !(next.phase is AwaitingAcceptance),
        action is FetchCheckpoint ==> next.phase is AwaitingCheckpoint,
        action is Finish ==> !(action->Finish_0 is Ok),
{
}

/// A broadcast that follows a fetch is of a transaction that is signed
/// under the checkpoint that was fetched, by every required signer.
pub proof fn broadcast_is_signed_under_the_fetched_checkpoint(
    s: SubmissionView,
    checkpoint: Checkpoint,
    next: SubmissionView,
    action: Action,
)
    requires
        transition(s, Event::CheckpointFetched(checkpoint), next, action),
        action is Broadcast,
    ensures
        next.phase matches Phase::AwaitingAcceptance(tx) && tx.checkpoint == checkpoint
            && tx.is_complete(),
{
}

/// A submission succeeds only on the word of the network: with the
/// identifier that was accepted, where no confirmation is asked for, or
/// on the confirmation of the accepted transaction.
pub proof fn success_is_never_premature(
    s: SubmissionView,
    event: Event,
    next: SubmissionView,
    action: Action,
    id: TransactionId,
)
    requires
        transition(s, event, next, action),
        action == Action::Finish(Ok(id)),
    ensures
        (s.phase is AwaitingAcceptance && event == Event::Accepted(id) && !s.require_confirmation)
            || (s.phase == Phase::AwaitingConfirmation(id) && event is Confirmed),
{
}

/// The submission after so many broadcasts in a row failed in transit.
pub open spec fn after_failed_broadcasts(s: SubmissionView, tx: SignedTransaction, failures: nat) -> SubmissionView
    decreases failures,
{
    if failures == 0 {
        s
    } else {
        after_failed_broadcast(after_failed_broadcasts(s, tx, (failures - 1) as nat), tx).0
    }
}

/// A network that fails every broadcast uses up the attempts: each
/// failure but the last asks for one more broadcast of the same
/// transaction, and the failure of the last allowed broadcast ends the
/// submission with a network failure.
pub proof fn failing_broadcasts_exhaust_the_attempts(
    s: SubmissionView,
    tx: SignedTransaction,
    failures: nat,
)
    requires
        s.phase == Phase::AwaitingAcceptance(tx),
        s.broadcasts + failures <= s.policy.max_attempts,
    ensures
        after_failed_broadcasts(s, tx, failures) == moved(
            s,
            s.phase,
            s.fetches as int,
            s.broadcasts + failures,
            s.polls as int,
        ),
        s.broadcasts + failures < s.policy.max_attempts ==> after_failed_broadcast(
            after_failed_broadcasts(s, tx, failures),
            tx,
        ).1 is Broadcast,
        s.broadcasts + failures == s.policy.max_attempts ==> after_failed_broadcast(
            after_failed_broadcasts(s, tx, failures),
            tx,
        ).1 == Action::Finish(Err(Failure::Network)),
    decreases failures,
{
    if failures > 0 {
        failing_broadcasts_exhaust_the_attempts(s, tx, (failures - 1) as nat);
    }
}

/// The counts of a submission are within its policy: a checkpoint is
/// fetched only while a broadcast is left, and no more broadcasts and
/// polls were asked for than the policy allows.
pub open spec fn within_policy(s: SubmissionView) -> bool {
    match s.phase {
        Phase::AwaitingCheckpoint => 1 <= s.fetches <= s.policy.max_attempts && s.broadcasts
            < s.policy.max_attempts,
        Phase::AwaitingAcceptance(_) => s.broadcasts <= s.policy.max_attempts,
        Phase::AwaitingConfirmation(_) => s.polls <= s.policy.max_polls,
        Phase::Finished => true,
    }
}

/// A bound on the steps that a submission can still take.
pub open spec fn remaining_steps(s: SubmissionView) -> int {
    let attempts = s.policy.max_attempts as int;
    let polls = s.policy.max_polls as int;
    match s.phase {
        Phase::AwaitingCheckpoint => (attempts - s.broadcasts) * (attempts + 1) + (attempts
            - s.fetches) + polls + 2,
        Phase::AwaitingAcceptance(_) => (attempts - s.broadcasts) * (attempts + 1) + attempts
            + polls + 2,
        Phase::AwaitingConfirmation(_) => polls - s.polls + 1,
        Phase::Finished => 0,
    }
}

/// Every step of a submission that is not over brings it nearer to its
/// end: the counts stay within the policy and the bound on the steps that
/// remain goes down. So a submission ends, whatever the network answers.
pub proof fn every_step_nears_the_end(
    s: SubmissionView,
    event: Event,
    next: SubmissionView,
    action: Action,
)
    requires
        within_policy(s),
        transition(s, event, next, action),
    ensures
        within_policy(next),
        remaining_steps(next) >= 0,
        !(s.phase is Finished) ==> remaining_steps(next) < remaining_steps(s),
        action is Finish <==> next.phase is Finished,
{
    let attempts = s.policy.max_attempts as int;
    let before = attempts - s.broadcasts;
    assert(next.policy == s.policy);
    match s.phase {
        Phase::AwaitingCheckpoint => {
            assert((before - 1) * (attempts + 1) == before * (attempts + 1) - (attempts + 1))
                by (nonlinear_arith);
            assert((before - 1) * (attempts + 1) >= 0) by (nonlinear_arith)
                requires
                    before >= 1,
                    attempts >= 0,
            ;
        },
        Phase::AwaitingAcceptance(_) => {
            assert(before * (attempts + 1) >= 0) by (nonlinear_arith)
                requires
                    before >= 0,
                    attempts >= 0,
            ;
            if s.broadcasts < s.policy.max_attempts {
                assert((before - 1) * (attempts + 1) == before * (attempts + 1) - (attempts + 1))
                    by (nonlinear_arith);
                assert((before - 1) * (attempts + 1) >= 0) by (nonlinear_arith)
                    requires
                        before >= 1,
                        attempts >= 0,
                ;
            }
        },
        _ => {},
    }
}

/// The start of a submission: a first checkpoint is asked for, at once.
pub open spec fn started(
    instruction: InstructionView,
    fee_payer: KeyPair,
    signers: Seq<KeyPair>,
    require_confirmation: bool,
    policy: RetryPolicy,
) -> SubmissionView {
    SubmissionView {
        instruction,
        fee_payer,
        signers,
        require_confirmation,
        policy,
        phase: Phase::AwaitingCheckpoint,
        fetches: 1,
        broadcasts: 0,
        polls: 0,
    }
}

/// Computes the delay before a retry.
fn delay_after(base_ms: u64, failures: u32) -> (delay: u64)
    ensures
        delay == backoff_delay(base_ms, failures),
{
    match base_ms.checked_mul(failures as u64) {
        Some(delay) => delay,
        None => u64::MAX,
    }
}

impl Submission {
    #[verifier::type_invariant]
    spec fn well_formed(self) -> bool {
        &&& self.policy.max_attempts >= 1
        &&& ready_to_sign(self.instruction@, self.fee_payer, self.signers@)
        &&& within_policy(self@)
        &&& self.phase matches Phase::AwaitingAcceptance(tx) ==> tx.is_complete()
    }

    /// Starts the submission of one instruction. Before anything is
    /// sent, checks that the policy allows an attempt and that a
    /// transaction of the instruction can be signed with the key pairs.
    pub fn begin(
        instruction: Instruction,
        fee_payer: KeyPair,
        signers: Vec<KeyPair>,
        require_confirmation: bool,
        policy: RetryPolicy,
    ) -> (res: Result<(Submission, Action), Failure>)
        ensures
            match res {
                Ok((submission, action)) => {
                    &&& policy.max_attempts >= 1
                    &&& ready_to_sign(instruction@, fee_payer, signers@)
                    &&& submission@ == started(
                        instruction@,
                        fee_payer,
                        signers@,
                        require_confirmation,
                        policy,
                    )
                    &&& within_policy(submission@)
                    &&& action == Action::FetchCheckpoint { delay_ms: 0 }
                },
                Err(Failure::Precondition(PreconditionError::NoAttemptsAllowed)) =>
                    policy.max_attempts == 0,
                Err(Failure::Precondition(PreconditionError::Signing(error))) =>
                    policy.max_attempts >= 1 && crate::transaction::signing_failure(
                        instruction@,
                        fee_payer,
                        signers@,
                        error,
                    ),
                Err(_) => false,
            },
    {
        if policy.max_attempts == 0 {
            return Err(Failure::Precondition(PreconditionError::NoAttemptsAllowed));
        }
        match check_signers(&instruction, &fee_payer, &signers) {
            Ok(_) => {},
            Err(error) => {
                return Err(Failure::Precondition(PreconditionError::Signing(error)));
            },
        }
        let submission = Submission {
            instruction,
            fee_payer,
            signers,
            require_confirmation,
            policy,
            phase: Phase::AwaitingCheckpoint,
            fetches: 1,
            broadcasts: 0,
            polls: 0,
        };
        Ok((submission, Action::FetchCheckpoint { delay_ms: 0 }))
    }

    /// Where the submission stands.
    pub fn phase(&self) -> (phase: &Phase)
        ensures
            *phase == self@.phase,
    {
        &self.phase
    }

    /// The signed transaction that is to be broadcast, if the submission
    /// waits for its acceptance.
    pub fn pending_transaction(&self) -> (tx: Option<&SignedTransaction>)
        ensures
            match tx {
                Some(pending) => self@.phase == Phase::AwaitingAcceptance(*pending)
                    && pending.is_complete(),
                None => !(self@.phase is AwaitingAcceptance),
            },
    {
        proof {
            use_type_invariant(self);
        }
        match &self.phase {
            Phase::AwaitingAcceptance(tx) => Some(tx),
            _ => None,
        }
    }

    /// The identifier of the accepted transaction, if the submission
    /// waits for its confirmation.
    pub fn accepted_transaction(&self) -> (id: Option<TransactionId>)
        ensures
            match id {
                Some(accepted) => self@.phase == Phase::AwaitingConfirmation(accepted),
                None => !(self@.phase is AwaitingConfirmation),
            },
    {
        match &self.phase {
            Phase::AwaitingConfirmation(id) => Some(*id),
            _ => None,
        }
    }

    /// Whether the submission is over.
    pub fn is_finished(&self) -> (done: bool)
        ensures
            done == (self@.phase is Finished),
    {
        match &self.phase {
            Phase::Finished => true,
            _ => false,
        }
    }

    /// How many fetches of the current checkpoint were asked for.
    pub fn fetches(&self) -> (n: u32)
        ensures
            n == self@.fetches,
    {
        self.fetches
    }

    /// How many broadcasts were asked for.
    pub fn broadcasts(&self) -> (n: u32)
        ensures
            n == self@.broadcasts,
    {
        self.broadcasts
    }

    /// How many status polls were asked for.
    pub fn polls(&self) -> (n: u32)
        ensures
            n == self@.polls,
    {
        self.polls
    }

    /// Takes one step: from the submission and the outcome of the action
    /// that was asked for last, to the next submission and the next
    /// action.
    ///
    /// A broadcast is asked for only of a transaction that holds the
    /// signature of every required signer. After an expired checkpoint no
    /// broadcast is asked for: a new checkpoint is fetched, and the next
    /// broadcast is of a transaction signed under it.
    pub fn step(self, event: Event) -> (res: (Submission, Action))
        ensures
            transition(self@, event, res.0@, res.1),
            within_policy(self@),
            within_policy(res.0@),
            res.1 is Broadcast ==> (res.0@.phase matches Phase::AwaitingAcceptance(tx)
                && tx.is_complete()),
    {
        proof {
            use_type_invariant(&self);
        }
        let ghost before = self@;
        let Submission {
            instruction,
            fee_payer,
            signers,
            require_confirmation,
            policy,
            phase,
            fetches,
            broadcasts,
            polls,
        } = self;
        let mut next_phase = Phase::Finished;
        let mut next_fetches = fetches;
        let mut next_broadcasts = broadcasts;
        let mut next_polls = polls;
        let mut action = Action::Finish(
            Err(Failure::Precondition(PreconditionError::UnexpectedEvent)),
        );
        match phase {
            Phase::AwaitingCheckpoint => match event {
                Event::CheckpointFetched(checkpoint) => {
                    let copy = instruction.duplicate();
                    match sign_transaction(copy, &fee_payer, &signers, checkpoint) {
                        Ok(tx) => {
                            next_phase = Phase::AwaitingAcceptance(tx);
                            next_broadcasts = broadcasts + 1;
                            action = Action::Broadcast { delay_ms: 0 };
                        },
                        Err(error) => {
                            proof {
                                crate::transaction::ready_to_sign_excludes_failure(
                                    instruction@,
                                    fee_payer,
                                    signers@,
                                    error,
                                );
                            }
                            assert(false);
                        },
                    }
                },
                Event::NetworkFailed => {
                    if fetches < policy.max_attempts {
                        next_phase = Phase::AwaitingCheckpoint;
                        next_fetches = fetches + 1;
                        action = Action::FetchCheckpoint {
                            delay_ms: delay_after(policy.backoff_ms, fetches),
                        };
                    } else {
                        action = Action::Finish(Err(Failure::Network));
                    }
                },
                _ => {},
            },
            Phase::AwaitingAcceptance(tx) => match event {
                Event::Accepted(id) => {
                    if !require_confirmation {
                        action = Action::Finish(Ok(id));
                    } else if 0 < policy.max_polls {
                        next_phase = Phase::AwaitingConfirmation(id);
                        next_polls = 1;
                        action = Action::PollStatus { delay_ms: policy.poll_interval_ms };
                    } else {
                        action = Action::Finish(Err(Failure::AmbiguousTimeout(id)));
                    }
                },
                Event::NetworkFailed => {
                    if broadcasts < policy.max_attempts {
                        next_phase = Phase::AwaitingAcceptance(tx);
                        next_broadcasts = broadcasts + 1;
                        action = Action::Broadcast {
                            delay_ms: delay_after(policy.backoff_ms, broadcasts),
                        };
                    } else {
                        action = Action::Finish(Err(Failure::Network));
                    }
                },
                Event::CheckpointExpired => {
                    if broadcasts < policy.max_attempts {
                        next_phase = Phase::AwaitingCheckpoint;
                        next_fetches = 1;
                        action = Action::FetchCheckpoint { delay_ms: 0 };
                    } else {
                        action = Action::Finish(Err(Failure::StaleCheckpoint));
                    }
                },
                Event::Rejected(reason) => {
                    action = Action::Finish(Err(Failure::Rejected(reason)));
                },
                _ => {},
            },
            Phase::AwaitingConfirmation(id) => match event {
                Event::Confirmed => {
                    action = Action::Finish(Ok(id));
                },
                Event::Failed(reason) => {
                    action = Action::Finish(Err(Failure::Rejected(reason)));
                },
                Event::Pending | Event::NetworkFailed => {
                    if polls < policy.max_polls {
                        next_phase = Phase::AwaitingConfirmation(id);
                        next_polls = polls + 1;
                        action = Action::PollStatus { delay_ms: policy.poll_interval_ms };
                    } else {
                        action = Action::Finish(Err(Failure::AmbiguousTimeout(id)));
                    }
                },
                _ => {},
            },
            Phase::Finished => {},
        }
        let next = Submission {
            instruction,
            fee_payer,
            signers,
            require_confirmation,
            policy,
            phase: next_phase,
            fetches: next_fetches,
            broadcasts: next_broadcasts,
            polls: next_polls,
        };
        (next, action)
    }
}

} // verus!
