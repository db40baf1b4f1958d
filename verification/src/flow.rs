//! The phases of an instruction.
//!
//! An instruction starts, is checked, makes its four calls and returns. Each
//! piece of work either succeeds, which takes the instruction to the next
//! phase, or fails, which aborts it for good. Only a committed instruction
//! leaves anything behind.

use vstd::prelude::*;
use crate::errors::{CallKind, CustomError};
use crate::plan::{MintPlan, MintPlanView};
use crate::records::{IdentityRecord, MasterEditionRecord, TokenMetadata, TokenMetadataView};

verus! {

/// Where an instruction stands.
#[derive(Clone, Copy, Debug, PartialEq, Eq, Structural)]
pub enum Phase {
    /// Nothing has been done.
    Start,
    /// The accounts were checked; no call has gone out.
    Validated,
    /// The unit was minted.
    Minted,
    /// The metadata record was created.
    MetadataCreated,
    /// The master edition record was created.
    EditionCreated,
    /// The identity record was written.
    IdentityBound,
    /// The instruction returned and its effects stand.
    Committed,
    /// The instruction failed and none of its effects stand.
    Aborted(CustomError),
}

/// The work that is due in a phase.
#[derive(Clone, Copy, Debug, PartialEq, Eq, Structural)]
pub enum Work {
    /// Check the accounts.
    Validate,
    /// Make a call into another program.
    Call(CallKind),
    /// Return to the runtime.
    Commit,
    /// The instruction is over.
    Nothing,
}

/// What a piece of work came to.
pub type Outcome = Result<(), CustomError>;

/// What a committed instruction leaves behind.
#[derive(Clone, Debug, PartialEq, Eq)]
pub struct Effects {
    /// Units credited to the recipient's token account.
    pub units_minted: u64,
    /// The metadata record created, if any.
    pub metadata: Option<TokenMetadata>,
    /// The master edition record created, if any.
    pub master_edition: Option<MasterEditionRecord>,
    /// The identity record written, if any.
    pub identity: Option<IdentityRecord>,
}

/// The effects of an instruction, as a mathematical value.
pub ghost struct EffectsView {
    pub units_minted: u64,
    pub metadata: Option<TokenMetadataView>,
    pub master_edition: Option<MasterEditionRecord>,
    pub identity: Option<IdentityRecord>,
}

impl View for Effects {
    type V = EffectsView;

    open spec fn view(&self) -> EffectsView {
        EffectsView {
            units_minted: self.units_minted,
            metadata: match self.metadata {
                Some(data) => Some(data@),
                None => None,
            },
            master_edition: self.master_edition,
            identity: self.identity,
        }
    }
}

impl EffectsView {
    /// No effect at all.
    pub open spec fn nothing() -> EffectsView {
        EffectsView { units_minted: 0, metadata: None, master_edition: None, identity: None }
    }

    /// Everything the calls of `plan` bring about.
    pub open spec fn all_of(plan: MintPlanView) -> EffectsView {
        EffectsView {
            units_minted: plan.issue.amount,
            metadata: Some(plan.metadata.data),
            master_edition: Some(MasterEditionRecord { max_supply: plan.edition.max_supply }),
            identity: Some(plan.identity.record),
        }
    }
}

impl Phase {
    /// Whether the instruction is over.
    pub open spec fn is_terminal(self) -> bool {
        self is Committed || self is Aborted
    }

    /// The phase that follows when the work due succeeds.
    pub open spec fn successor(self) -> Phase {
        match self {
            Phase::Start => Phase::Validated,
            Phase::Validated => Phase::Minted,
            Phase::Minted => Phase::MetadataCreated,
            Phase::MetadataCreated => Phase::EditionCreated,
            Phase::EditionCreated => Phase::IdentityBound,
            Phase::IdentityBound => Phase::Committed,
            Phase::Committed => Phase::Committed,
            Phase::Aborted(error) => Phase::Aborted(error),
        }
    }

    /// The work that is due.
    pub open spec fn work_due(self) -> Work {
        match self {
            Phase::Start => Work::Validate,
            Phase::Validated => Work::Call(CallKind::MintTo),
            Phase::Minted => Work::Call(CallKind::CreateMetadata),
            Phase::MetadataCreated => Work::Call(CallKind::CreateMasterEdition),
            Phase::EditionCreated => Work::Call(CallKind::BindIdentity),
            Phase::IdentityBound => Work::Commit,
            Phase::Committed => Work::Nothing,
            Phase::Aborted(_) => Work::Nothing,
        }
    }

    /// The phase after the work due came to `outcome`. A phase that is over
    /// stays as it is.
    pub open spec fn advanced(self, outcome: Outcome) -> Phase {
        if self.is_terminal() {
            self
        } else {
            match outcome {
                Ok(_) => self.successor(),
                Err(error) => Phase::Aborted(error),
            }
        }
    }

    /// How many pieces of work have succeeded when the instruction stands in
    /// this phase, if it has not failed.
    pub open spec fn progress(self) -> int {
        match self {
            Phase::Start => 0,
            Phase::Validated => 1,
            Phase::Minted => 2,
            Phase::MetadataCreated => 3,
            Phase::EditionCreated => 4,
            Phase::IdentityBound => 5,
            Phase::Committed => 6,
            Phase::Aborted(_) => 0,
        }
    }

    /// What stands of the calls of `plan` when the instruction is in this
    /// phase: all of it once committed, nothing before and nothing after a
    /// failure.
    pub open spec fn effects(self, plan: MintPlanView) -> EffectsView {
        if self is Committed {
            EffectsView::all_of(plan)
        } else {
            EffectsView::nothing()
        }
    }

    /// The work that is due.
    pub fn due(&self) -> (work: Work)
        ensures
            work == self.work_due(),
    {
        match self {
            Phase::Start => Work::Validate,
            Phase::Validated => Work::Call(CallKind::MintTo),
            Phase::Minted => Work::Call(CallKind::CreateMetadata),
            Phase::MetadataCreated => Work::Call(CallKind::CreateMasterEdition),
            Phase::EditionCreated => Work::Call(CallKind::BindIdentity),
            Phase::IdentityBound => Work::Commit,
            Phase::Committed => Work::Nothing,
            Phase::Aborted(_) => Work::Nothing,
        }
    }

    /// Whether the instruction is over.
    pub fn is_over(&self) -> (over: bool)
        ensures
            over == self.is_terminal(),
    {
        match self {
            Phase::Committed => true,
            Phase::Aborted(_) => true,
            _ => false,
        }
    }

    /// Takes the instruction on by the outcome of the work that was due.
    pub fn advance(self, outcome: Outcome) -> (next: Phase)
        ensures
            next == self.advanced(outcome),
    {
        match self {
            Phase::Committed => Phase::Committed,
            Phase::Aborted(error) => Phase::Aborted(error),
            _ => match outcome {
                Err(error) => Phase::Aborted(error),
                Ok(_) => match self {
                    Phase::Start => Phase::Validated,
                    Phase::Validated => Phase::Minted,
                    Phase::Minted => Phase::MetadataCreated,
                    Phase::MetadataCreated => Phase::EditionCreated,
                    Phase::EditionCreated => Phase::IdentityBound,
                    _ => Phase::Committed,
                },
            },
        }
    }

    /// What stands of the calls of `plan` now that the instruction is in
    /// this phase.
    pub fn settle(&self, plan: MintPlan) -> (effects: Effects)
        ensures
            effects@ == self.effects(plan@),
    {
        match self {
            Phase::Committed => Effects {
                units_minted: plan.issue.amount,
                metadata: Some(plan.metadata.data),
                master_edition: Some(MasterEditionRecord { max_supply: plan.edition.max_supply }),
                identity: Some(plan.identity.record),
            },
            _ => Effects { units_minted: 0, metadata: None, master_edition: None, identity: None },
        }
    }
}

/// The outcome that a call refused by another program comes to: the code is
/// passed on as it is, with the call it belongs to.
pub fn rejected(call: CallKind, code: u64) -> (outcome: Outcome)
    ensures
        outcome == Err::<(), CustomError>(CustomError::ExternalRejection { call, code }),
{
    Err(CustomError::ExternalRejection { call, code })
}

/// The phase an instruction reaches from `phase` through `outcomes`, one for
/// each piece of work in turn.
pub open spec fn run(phase: Phase, outcomes: Seq<Outcome>) -> Phase
    decreases outcomes.len(),
{
    if outcomes.len() == 0 {
        phase
    } else {
        run(phase.advanced(outcomes.first()), outcomes.drop_first())
    }
}

/// Whether the first `count` of `outcomes` are all successes.
pub open spec fn all_succeeded(outcomes: Seq<Outcome>, count: int) -> bool {
    forall|i: int| 0 <= i < count ==> (#[trigger] outcomes[i]) is Ok
}

/// A phase that is over stays as it is, whatever is reported after.
pub proof fn lemma_terminal_is_final(phase: Phase, outcomes: Seq<Outcome>)
    requires
        phase.is_terminal(),
    ensures
        run(phase, outcomes) == phase,
    decreases outcomes.len(),
{
    if outcomes.len() > 0 {
        lemma_terminal_is_final(phase, outcomes.drop_first());
    }
}

/// From a phase that is not over, successes lead on phase by phase: after
/// `outcomes`, all successes and no more than the work left, the instruction
/// has made that much progress and has not failed.
pub proof fn lemma_successes_progress(phase: Phase, outcomes: Seq<Outcome>)
    requires
        !(phase is Aborted),
        phase.progress() + outcomes.len() <= 6,
        all_succeeded(outcomes, outcomes.len() as int),
    ensures
        !(run(phase, outcomes) is Aborted),
        run(phase, outcomes).progress() == phase.progress() + outcomes.len(),
    decreases outcomes.len(),
{
    if outcomes.len() > 0 {
        assert(outcomes[0] is Ok);
        let rest = outcomes.drop_first();
        assert forall|i: int| 0 <= i < rest.len() implies (#[trigger] rest[i]) is Ok by {
            assert(rest[i] == outcomes[i + 1]);
        }
        lemma_successes_progress(phase.advanced(outcomes.first()), rest);
    }
}

/// An instruction whose six pieces of work all succeed is committed,
/// whatever is reported after.
pub proof fn lemma_all_successes_commit(outcomes: Seq<Outcome>)
    requires
        outcomes.len() >= 6,
        all_succeeded(outcomes, 6),
    ensures
        run(Phase::Start, outcomes) == Phase::Committed,
{
    let head = outcomes.subrange(0, 6);
    let tail = outcomes.subrange(6, outcomes.len() as int);
    assert forall|i: int| 0 <= i < head.len() implies (#[trigger] head[i]) is Ok by {
        assert(head[i] == outcomes[i]);
    }
    lemma_successes_progress(Phase::Start, head);
    assert(run(Phase::Start, head) == Phase::Committed);
    lemma_run_splits(Phase::Start, head, tail);
    assert(head + tail =~= outcomes);
    lemma_terminal_is_final(Phase::Committed, tail);
}

/// Running through two lists in turn is running through them joined.
pub proof fn lemma_run_splits(phase: Phase, first: Seq<Outcome>, second: Seq<Outcome>)
    ensures
        run(phase, first + second) == run(run(phase, first), second),
    decreases first.len(),
{
    if first.len() == 0 {
        assert(first + second =~= second);
    } else {
        assert((first + second).first() == first.first());
        assert((first + second).drop_first() =~= first.drop_first() + second);
        lemma_run_splits(phase.advanced(first.first()), first.drop_first(), second);
    }
}

/// The first failure decides: where the work at position `at` fails with
/// `error` and all before it succeeded, the instruction is aborted with that
/// error, whatever is reported after.
pub proof fn lemma_first_failure_aborts(outcomes: Seq<Outcome>, at: int, error: CustomError)
    requires
        0 <= at < 6,
        at < outcomes.len(),
        all_succeeded(outcomes, at),
        outcomes[at] == Err::<(), CustomError>(error),
    ensures
        run(Phase::Start, outcomes) == Phase::Aborted(error),
{
    let head = outcomes.subrange(0, at);
    let tail = outcomes.subrange(at, outcomes.len() as int);
    assert forall|i: int| 0 <= i < head.len() implies (#[trigger] head[i]) is Ok by {
        assert(head[i] == outcomes[i]);
    }
    lemma_successes_progress(Phase::Start, head);
    let reached = run(Phase::Start, head);
    assert(!reached.is_terminal());
    lemma_run_splits(Phase::Start, head, tail);
    assert(head + tail =~= outcomes);
    assert(tail.first() == outcomes[at]);
    assert(reached.advanced(tail.first()) == Phase::Aborted(error));
    lemma_terminal_is_final(Phase::Aborted(error), tail.drop_first());
}

/// No step is skipped: an instruction is committed only where six pieces of
/// work were reported and all six succeeded.
pub proof fn lemma_commit_needs_every_step(outcomes: Seq<Outcome>)
    requires
        run(Phase::Start, outcomes) == Phase::Committed,
    ensures
        outcomes.len() >= 6,
        all_succeeded(outcomes, 6),
{
    lemma_commit_from(Phase::Start, outcomes);
}

/// From a phase that is not over, the instruction is committed only through
/// a success for each piece of work still due.
pub proof fn lemma_commit_from(phase: Phase, outcomes: Seq<Outcome>)
    requires
        !phase.is_terminal(),
        run(phase, outcomes) == Phase::Committed,
    ensures
        outcomes.len() >= 6 - phase.progress(),
        all_succeeded(outcomes, 6 - phase.progress()),
    decreases outcomes.len(),
{
    if outcomes.len() == 0 {
    } else {
        let next = phase.advanced(outcomes.first());
        let rest = outcomes.drop_first();
        if outcomes.first() is Err {
            lemma_terminal_is_final(next, rest);
        } else if next is Committed {
        } else {
            lemma_commit_from(next, rest);
            assert forall|i: int| 0 <= i < 6 - phase.progress() implies (#[trigger] outcomes[i]) is Ok by {
                if i > 0 {
                    assert(outcomes[i] == rest[i - 1]);
                }
            }
        }
    }
}

/// Nothing stands of an instruction that is not committed, and no call is
/// due once it is over.
pub proof fn lemma_no_partial_effect(phase: Phase, plan: MintPlanView)
    ensures
        !(phase is Committed) ==> phase.effects(plan) == EffectsView::nothing(),
        phase.is_terminal() ==> phase.work_due() == Work::Nothing,
        phase is Committed ==> phase.effects(plan) == EffectsView::all_of(plan),
{
}

} // verus!
