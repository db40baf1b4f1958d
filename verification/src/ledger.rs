//! What a history of instructions adds up to.
//!
//! The ledger counts the units minted through this program for each mint and
//! holds the addresses at which an identity record stands. With the identity
//! record keyed by mint, the record that a committed instruction writes bars
//! every later instruction for the same mint, so no mint ever gets a second
//! unit.

use vstd::prelude::*;
use crate::accounts::{Context, MintAccounts};
use crate::address::Address;
use crate::deriver::{identity_address, IdentityKeying};
use crate::flow::{Outcome, Phase};
use crate::instruction::{final_effects, final_phase};
use crate::laws::{lemma_committed_effects, lemma_committed_passed_every_step};
use crate::plan::MintArgsView;
use crate::validator::is_derived;

verus! {

/// One instruction as it was submitted, with what its calls came to.
pub ghost struct Submission {
    pub accounts: MintAccounts,
    pub args: MintArgsView,
    pub outcomes: Seq<Outcome>,
}

/// What stands after a history of instructions.
pub ghost struct Ledger {
    /// Units minted through this program, by mint.
    pub units: Map<Seq<u8>, nat>,
    /// Addresses at which an identity record stands.
    pub identities: Set<Seq<u8>>,
}

impl Ledger {
    /// The ledger before any instruction.
    pub open spec fn empty() -> Ledger {
        Ledger { units: Map::empty(), identities: Set::empty() }
    }

    /// Units minted through this program for `mint`.
    pub open spec fn units_of(self, mint: Seq<u8>) -> nat {
        if self.units.dom().contains(mint) {
            self.units[mint]
        } else {
            0
        }
    }

    /// Whether `accounts` show the identity record's account as it stands.
    pub open spec fn seen_by(self, accounts: MintAccounts) -> bool {
        accounts.identity_record.initialized == self.identities.contains(accounts.identity_record.address@)
    }

    /// The ledger after the instruction `submission`.
    pub open spec fn after(self, program_id: Address, keying: IdentityKeying, submission: Submission) -> Ledger {
        let ctx = Context { program_id, accounts: submission.accounts };
        let effects = final_effects(ctx, submission.args, keying, submission.outcomes);
        let mint = submission.accounts.mint@;
        Ledger {
            units: self.units.insert(mint, self.units_of(mint) + effects.units_minted as nat),
            identities: if effects.identity is Some {
                self.identities.insert(submission.accounts.identity_record.address@)
            } else {
                self.identities
            },
        }
    }

    /// The ledger after the instructions of `history`, in turn.
    pub open spec fn after_all(self, program_id: Address, keying: IdentityKeying, history: Seq<Submission>) -> Ledger
        decreases history.len(),
    {
        if history.len() == 0 {
            self
        } else {
            self.after_all(program_id, keying, history.drop_last()).after(program_id, keying, history.last())
        }
    }

    /// Whether each instruction of `history` saw the identity record's
    /// account as it stood when the instruction was submitted.
    pub open spec fn each_saw_it(self, program_id: Address, keying: IdentityKeying, history: Seq<Submission>) -> bool
        decreases history.len(),
    {
        if history.len() == 0 {
            true
        } else {
            &&& self.each_saw_it(program_id, keying, history.drop_last())
            &&& self.after_all(program_id, keying, history.drop_last()).seen_by(history.last().accounts)
        }
    }

    /// With the identity record keyed by mint: no mint has more than one
    /// unit, and where it has one, its identity record stands.
    pub open spec fn one_of_one(self, program_id: Address) -> bool {
        forall|mint: Seq<u8>| #[trigger]
            self.units_of(mint) <= 1 && (self.units_of(mint) == 1 ==> is_held(
                self.identities,
                identity_address(IdentityKeying::ByMint, mint, program_id@),
            ))
    }
}

/// Whether an address was derived and is among `identities`.
pub open spec fn is_held(identities: Set<Seq<u8>>, derived: Option<(Seq<u8>, u8)>) -> bool {
    derived matches Some(found) && identities.contains(found.0)
}

/// One instruction keeps the ledger one of one, where it saw the identity
/// record's account as it stood.
pub proof fn lemma_instruction_keeps_one_of_one(ledger: Ledger, program_id: Address, submission: Submission)
    requires
        ledger.one_of_one(program_id),
        ledger.seen_by(submission.accounts),
    ensures
        ledger.after(program_id, IdentityKeying::ByMint, submission).one_of_one(program_id),
{
    let keying = IdentityKeying::ByMint;
    let ctx = Context { program_id, accounts: submission.accounts };
    let phase = final_phase(ctx, submission.args, keying, submission.outcomes);
    let effects = final_effects(ctx, submission.args, keying, submission.outcomes);
    let next = ledger.after(program_id, keying, submission);
    let this_mint = submission.accounts.mint@;
    let slot = submission.accounts.identity_record;
    if phase == Phase::Committed {
        lemma_committed_passed_every_step(ctx, submission.args, keying, submission.outcomes);
        lemma_committed_effects(ctx, submission.args, keying, submission.outcomes);
        assert(is_derived(slot.address@, identity_address(keying, this_mint, program_id@)));
        assert(!slot.initialized);
        assert(!ledger.identities.contains(slot.address@));
        assert(ledger.units_of(this_mint) <= 1);
        assert(ledger.units_of(this_mint) != 1);
        assert(next.units_of(this_mint) == 1);
    } else {
        assert(effects.units_minted == 0);
        assert(effects.identity is None);
    }
    assert forall|mint: Seq<u8>| #[trigger]
        next.units_of(mint) <= 1 && (next.units_of(mint) == 1 ==> is_held(
            next.identities,
            identity_address(keying, mint, program_id@),
        )) by {
        assert(ledger.units_of(mint) <= 1);
        if mint != this_mint {
            assert(next.units_of(mint) == ledger.units_of(mint));
        }
    }
}

/// No second unit: with the identity record keyed by mint, after any history
/// of instructions that each saw the identity record's account as it stood,
/// no mint has more than one unit minted through this program.
pub proof fn lemma_one_unit_per_mint(program_id: Address, history: Seq<Submission>, mint: Seq<u8>)
    requires
        Ledger::empty().each_saw_it(program_id, IdentityKeying::ByMint, history),
    ensures
        Ledger::empty().after_all(program_id, IdentityKeying::ByMint, history).units_of(mint) <= 1,
{
    lemma_history_keeps_one_of_one(program_id, history);
}

/// Any history of instructions that each saw the identity record's account
/// as it stood leaves the ledger one of one.
pub proof fn lemma_history_keeps_one_of_one(program_id: Address, history: Seq<Submission>)
    requires
        Ledger::empty().each_saw_it(program_id, IdentityKeying::ByMint, history),
    ensures
        Ledger::empty().after_all(program_id, IdentityKeying::ByMint, history).one_of_one(program_id),
    decreases history.len(),
{
    if history.len() == 0 {
        assert forall|mint: Seq<u8>| #[trigger] Ledger::empty().units_of(mint) == 0 by {}
    } else {
        lemma_history_keeps_one_of_one(program_id, history.drop_last());
        lemma_instruction_keeps_one_of_one(
            Ledger::empty().after_all(program_id, IdentityKeying::ByMint, history.drop_last()),
            program_id,
            history.last(),
        );
    }
}

} // verus!
