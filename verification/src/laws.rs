//! What holds of every instruction, proved from the contracts of the crate.

use vstd::prelude::*;
use crate::accounts::{Context, MintAccounts, RecordSlot};
use crate::deriver::{
    identity_address, master_edition_address, metadata_address, token_account_address,
    IdentityKeying,
};
use crate::errors::CustomError;
use crate::flow::{
    all_succeeded, lemma_all_successes_commit, lemma_commit_needs_every_step,
    lemma_first_failure_aborts, EffectsView, Outcome, Phase, Work,
};
use crate::instruction::{check_outcome, decided, final_effects, final_phase};
use crate::plan::{Allocation, BindIdentityCall, MintArgsView, MintPlanView};
use crate::records::{credential_metadata, IdentityRecord, MasterEditionRecord};
use crate::validator::{is_derived, verdict_for, Bumps};

verus! {

/// The outcomes of a whole instruction: that of its check, then `outcomes`.
pub open spec fn with_check(ctx: Context<MintAccounts>, args: MintArgsView, keying: IdentityKeying, outcomes: Seq<Outcome>) -> Seq<Outcome> {
    seq![check_outcome(decided(ctx, args, keying))] + outcomes
}

/// An instruction that fails its check is aborted with the error of the
/// check and leaves nothing behind: no unit is minted, no record is made and
/// no call is due, whatever is reported after.
pub proof fn lemma_failed_check_aborts(ctx: Context<MintAccounts>, args: MintArgsView, keying: IdentityKeying, outcomes: Seq<Outcome>, error: CustomError)
    requires
        verdict_for(ctx.accounts, keying, ctx.program_id@) == Err::<Bumps, CustomError>(error),
    ensures
        decided(ctx, args, keying) == Err::<MintPlanView, CustomError>(error),
        final_phase(ctx, args, keying, outcomes) == Phase::Aborted(error),
        final_phase(ctx, args, keying, outcomes).work_due() == Work::Nothing,
        final_effects(ctx, args, keying, outcomes) == EffectsView::nothing(),
        final_effects(ctx, args, keying, outcomes).units_minted == 0,
{
    let all = with_check(ctx, args, keying, outcomes);
    assert(all[0] == Err::<(), CustomError>(error));
    lemma_first_failure_aborts(all, 0, error);
}

/// A committed instruction passed its check, and each of its four calls and
/// its return succeeded.
pub proof fn lemma_committed_passed_every_step(ctx: Context<MintAccounts>, args: MintArgsView, keying: IdentityKeying, outcomes: Seq<Outcome>)
    requires
        final_phase(ctx, args, keying, outcomes) == Phase::Committed,
    ensures
        verdict_for(ctx.accounts, keying, ctx.program_id@) is Ok,
        decided(ctx, args, keying) is Ok,
        outcomes.len() >= 5,
        all_succeeded(outcomes, 5),
{
    let all = with_check(ctx, args, keying, outcomes);
    lemma_commit_needs_every_step(all);
    assert(all[0] is Ok);
    assert forall|i: int| 0 <= i < 5 implies (#[trigger] outcomes[i]) is Ok by {
        assert(outcomes[i] == all[i + 1]);
    }
}

/// Where the accounts pass the check and every call and the return succeed,
/// the instruction is committed.
pub proof fn lemma_valid_instruction_commits(ctx: Context<MintAccounts>, args: MintArgsView, keying: IdentityKeying, outcomes: Seq<Outcome>)
    requires
        verdict_for(ctx.accounts, keying, ctx.program_id@) is Ok,
        outcomes.len() >= 5,
        all_succeeded(outcomes, 5),
    ensures
        final_phase(ctx, args, keying, outcomes) == Phase::Committed,
{
    let all = with_check(ctx, args, keying, outcomes);
    assert forall|i: int| 0 <= i < 6 implies (#[trigger] all[i]) is Ok by {
        if i > 0 {
            assert(all[i] == outcomes[i - 1]);
        }
    }
    lemma_all_successes_commit(all);
}

/// A committed instruction leaves exactly this: one unit minted to the
/// recipient, a metadata record with the texts as given, no royalty and no
/// creators, a master edition record with a supply cap of one, and an
/// identity record that binds the owning key to the hash as given.
pub proof fn lemma_committed_effects(ctx: Context<MintAccounts>, args: MintArgsView, keying: IdentityKeying, outcomes: Seq<Outcome>)
    requires
        final_phase(ctx, args, keying, outcomes) == Phase::Committed,
    ensures
        final_effects(ctx, args, keying, outcomes) == (EffectsView {
            units_minted: 1,
            metadata: Some(credential_metadata(args.name, args.symbol, args.uri)),
            master_edition: Some(MasterEditionRecord { max_supply: Some(1u64) }),
            identity: Some(IdentityRecord::binding(keying, ctx.accounts.owning_key(keying), args.user_id_hash)),
        }),
        final_effects(ctx, args, keying, outcomes).metadata->Some_0.seller_fee_basis_points == 0,
        final_effects(ctx, args, keying, outcomes).metadata->Some_0.creators is None,
        final_effects(ctx, args, keying, outcomes).identity->Some_0.id_hash() == args.user_id_hash,
        decided(ctx, args, keying)->Ok_0.issue.to == ctx.accounts.recipient_token_account,
        decided(ctx, args, keying)->Ok_0.issue.mint == ctx.accounts.mint,
{
    lemma_committed_passed_every_step(ctx, args, keying, outcomes);
}

/// A metadata account that is not the address derived for the mint fails the
/// instruction with `WrongMetadataPda`, whatever else holds of the accounts,
/// and no unit is minted.
pub proof fn lemma_wrong_metadata_address_fails(ctx: Context<MintAccounts>, args: MintArgsView, keying: IdentityKeying, outcomes: Seq<Outcome>)
    requires
        !is_derived(ctx.accounts.metadata@, metadata_address(ctx.accounts.mint@)),
    ensures
        decided(ctx, args, keying) == Err::<MintPlanView, CustomError>(CustomError::WrongMetadataPda),
        final_phase(ctx, args, keying, outcomes) == Phase::Aborted(CustomError::WrongMetadataPda),
        final_effects(ctx, args, keying, outcomes) == EffectsView::nothing(),
{
    lemma_failed_check_aborts(ctx, args, keying, outcomes, CustomError::WrongMetadataPda);
}

/// A master edition account that is not the address derived for the mint,
/// beside a metadata account that is, fails the instruction with
/// `WrongMasterEditionPda`, and no unit is minted.
pub proof fn lemma_wrong_master_edition_address_fails(ctx: Context<MintAccounts>, args: MintArgsView, keying: IdentityKeying, outcomes: Seq<Outcome>)
    requires
        is_derived(ctx.accounts.metadata@, metadata_address(ctx.accounts.mint@)),
        !is_derived(ctx.accounts.master_edition@, master_edition_address(ctx.accounts.mint@)),
    ensures
        decided(ctx, args, keying) == Err::<MintPlanView, CustomError>(CustomError::WrongMasterEditionPda),
        final_phase(ctx, args, keying, outcomes) == Phase::Aborted(CustomError::WrongMasterEditionPda),
        final_effects(ctx, args, keying, outcomes) == EffectsView::nothing(),
{
    lemma_failed_check_aborts(ctx, args, keying, outcomes, CustomError::WrongMasterEditionPda);
}

/// An identity record account that is not the address derived for its owning
/// key, beside metadata and master edition accounts that are theirs, fails
/// the instruction with `WrongIdentityPda`, and no unit is minted.
pub proof fn lemma_wrong_identity_address_fails(ctx: Context<MintAccounts>, args: MintArgsView, keying: IdentityKeying, outcomes: Seq<Outcome>)
    requires
        is_derived(ctx.accounts.metadata@, metadata_address(ctx.accounts.mint@)),
        is_derived(ctx.accounts.master_edition@, master_edition_address(ctx.accounts.mint@)),
        !is_derived(
            ctx.accounts.identity_record.address@,
            identity_address(keying, ctx.accounts.owning_key(keying)@, ctx.program_id@),
        ),
    ensures
        decided(ctx, args, keying) == Err::<MintPlanView, CustomError>(CustomError::WrongIdentityPda),
        final_phase(ctx, args, keying, outcomes) == Phase::Aborted(CustomError::WrongIdentityPda),
        final_effects(ctx, args, keying, outcomes) == EffectsView::nothing(),
{
    lemma_failed_check_aborts(ctx, args, keying, outcomes, CustomError::WrongIdentityPda);
}

/// A recipient's token account that is not the address derived for wallet
/// and mint, beside three record accounts that are theirs, fails the
/// instruction with `WrongRecipientTokenAccount`, and no unit is minted.
pub proof fn lemma_wrong_token_account_fails(ctx: Context<MintAccounts>, args: MintArgsView, keying: IdentityKeying, outcomes: Seq<Outcome>)
    requires
        is_derived(ctx.accounts.metadata@, metadata_address(ctx.accounts.mint@)),
        is_derived(ctx.accounts.master_edition@, master_edition_address(ctx.accounts.mint@)),
        is_derived(
            ctx.accounts.identity_record.address@,
            identity_address(keying, ctx.accounts.owning_key(keying)@, ctx.program_id@),
        ),
        !is_derived(
            ctx.accounts.recipient_token_account@,
            token_account_address(ctx.accounts.recipient@, ctx.accounts.mint@),
        ),
    ensures
        decided(ctx, args, keying) == Err::<MintPlanView, CustomError>(
            CustomError::WrongRecipientTokenAccount,
        ),
        final_phase(ctx, args, keying, outcomes) == Phase::Aborted(CustomError::WrongRecipientTokenAccount),
        final_effects(ctx, args, keying, outcomes) == EffectsView::nothing(),
{
    lemma_failed_check_aborts(ctx, args, keying, outcomes, CustomError::WrongRecipientTokenAccount);
}

/// The same accounts as they are seen once `effects` stand: the identity
/// record's account holds a record if it held one before or one was written.
pub open spec fn resubmitted(ctx: Context<MintAccounts>, effects: EffectsView) -> Context<MintAccounts> {
    Context {
        program_id: ctx.program_id,
        accounts: MintAccounts {
            identity_record: RecordSlot {
                address: ctx.accounts.identity_record.address,
                initialized: ctx.accounts.identity_record.initialized || effects.identity is Some,
                lamports: ctx.accounts.identity_record.lamports,
            },
            ..ctx.accounts
        },
    }
}

/// Keyed by mint, the identity record is written once. The same instruction,
/// submitted again after it was committed, fails with
/// `IdentityAlreadyInitialized` whatever its calls would come to, and leaves
/// nothing more behind.
pub proof fn lemma_resubmission_fails(ctx: Context<MintAccounts>, args: MintArgsView, first: Seq<Outcome>, second: Seq<Outcome>)
    requires
        final_phase(ctx, args, IdentityKeying::ByMint, first) == Phase::Committed,
    ensures
        ({
            let keying = IdentityKeying::ByMint;
            let again = resubmitted(ctx, final_effects(ctx, args, keying, first));
            &&& decided(again, args, keying) == Err::<MintPlanView, CustomError>(
                CustomError::IdentityAlreadyInitialized,
            )
            &&& final_phase(again, args, keying, second) == Phase::Aborted(CustomError::IdentityAlreadyInitialized)
            &&& final_effects(again, args, keying, second) == EffectsView::nothing()
        }),
{
    let keying = IdentityKeying::ByMint;
    lemma_committed_passed_every_step(ctx, args, keying, first);
    lemma_committed_effects(ctx, args, keying, first);
    let again = resubmitted(ctx, final_effects(ctx, args, keying, first));
    assert(again.accounts.owning_key(keying) == ctx.accounts.owning_key(keying));
    assert(again.accounts.identity_record.initialized);
    lemma_failed_check_aborts(again, args, keying, second, CustomError::IdentityAlreadyInitialized);
}

/// Keyed by wallet, a record that stands does not bar the instruction:
/// accounts that pass the check with the record absent pass it with the
/// record present, and the calls laid out are the same but that the record's
/// account is kept as it is.
pub proof fn lemma_wallet_record_does_not_bar(ctx: Context<MintAccounts>, args: MintArgsView, lamports: u64)
    requires
        !ctx.accounts.identity_record.initialized,
        decided(ctx, args, IdentityKeying::ByWallet) is Ok,
    ensures
        ({
            let keying = IdentityKeying::ByWallet;
            let present = Context {
                program_id: ctx.program_id,
                accounts: MintAccounts {
                    identity_record: RecordSlot {
                        address: ctx.accounts.identity_record.address,
                        initialized: true,
                        lamports,
                    },
                    ..ctx.accounts
                },
            };
            let before = decided(ctx, args, keying)->Ok_0;
            let after = decided(present, args, keying);
            &&& after is Ok
            &&& after->Ok_0.issue == before.issue
            &&& after->Ok_0.metadata == before.metadata
            &&& after->Ok_0.edition == before.edition
            &&& after->Ok_0.identity == (BindIdentityCall { allocation: Allocation::Keep, ..before.identity })
        }),
{
}

/// Keyed by wallet, the identity record is written anew. An instruction for
/// the same accounts, submitted after one was committed, passes the check
/// whatever texts and hash it gives; its identity call keeps the account and
/// writes a record that binds the wallet to the hash now given. Where its
/// calls and its return succeed it is committed and leaves that record; with
/// the hash of the first instruction, the record is the one that stood.
pub proof fn lemma_resubmission_rewrites(
    ctx: Context<MintAccounts>,
    args: MintArgsView,
    first: Seq<Outcome>,
    now: MintArgsView,
    second: Seq<Outcome>,
)
    requires
        final_phase(ctx, args, IdentityKeying::ByWallet, first) == Phase::Committed,
    ensures
        ({
            let keying = IdentityKeying::ByWallet;
            let stood = final_effects(ctx, args, keying, first);
            let again = resubmitted(ctx, stood);
            let record = IdentityRecord::binding(keying, ctx.accounts.recipient, now.user_id_hash);
            &&& decided(again, now, keying) is Ok
            &&& decided(again, now, keying)->Ok_0.identity.allocation == Allocation::Keep
            &&& decided(again, now, keying)->Ok_0.identity.record == record
            &&& record.id_hash() == now.user_id_hash
            &&& second.len() >= 5 && all_succeeded(second, 5) ==> {
                &&& final_phase(again, now, keying, second) == Phase::Committed
                &&& final_effects(again, now, keying, second).identity == Some(record)
                &&& final_effects(again, now, keying, second).units_minted == 1
            }
            &&& now.user_id_hash == args.user_id_hash ==> Some(record) == stood.identity
        }),
{
    let keying = IdentityKeying::ByWallet;
    lemma_committed_passed_every_step(ctx, args, keying, first);
    lemma_committed_effects(ctx, args, keying, first);
    let again = resubmitted(ctx, final_effects(ctx, args, keying, first));
    assert(again.accounts.owning_key(keying) == ctx.accounts.owning_key(keying));
    assert(again.accounts.identity_record.initialized);
    assert(verdict_for(again.accounts, keying, again.program_id@) is Ok);
    if second.len() >= 5 && all_succeeded(second, 5) {
        lemma_valid_instruction_commits(again, now, keying, second);
        lemma_committed_effects(again, now, keying, second);
    }
}

/// No royalty and no creators, whatever the input: neither the call that an
/// instruction lays out nor the record it leaves behind has a royalty other
/// than zero or names a creator.
pub proof fn lemma_no_royalty_no_creators(ctx: Context<MintAccounts>, args: MintArgsView, keying: IdentityKeying, outcomes: Seq<Outcome>)
    ensures
        decided(ctx, args, keying) matches Ok(plan) ==> plan.metadata.data.seller_fee_basis_points == 0
            && plan.metadata.data.creators is None,
        final_effects(ctx, args, keying, outcomes).metadata matches Some(data) ==> data.seller_fee_basis_points == 0
            && data.creators is None,
{
}

/// The supply is capped at one, whatever the input: every instruction that
/// lays out calls mints one unit and caps the master edition at one, and
/// nothing it leaves behind says otherwise.
pub proof fn lemma_supply_cap_is_one(ctx: Context<MintAccounts>, args: MintArgsView, keying: IdentityKeying, outcomes: Seq<Outcome>)
    ensures
        decided(ctx, args, keying) matches Ok(plan) ==> plan.issue.amount == 1 && plan.edition.max_supply == Some(1u64),
        final_effects(ctx, args, keying, outcomes).units_minted <= 1,
        final_effects(ctx, args, keying, outcomes).master_edition matches Some(edition) ==> edition.max_supply == Some(
            1u64,
        ),
{
}

} // verus!
