//! The entry points: what an instruction decides before its calls go out.
//!
//! `mint_credential` is the one mint instruction. `mint_nft` and `mint_cv`
//! are that instruction with the identity record keyed by wallet and by
//! mint. Each checks the accounts and, where they pass, lays out the calls
//! for the caller to make in order.

use vstd::prelude::*;
use crate::accounts::{Context, MintAccounts, MintCv, MintNft, UpdateUri};
use crate::deriver::IdentityKeying;
use crate::errors::CustomError;
use crate::flow::{run, EffectsView, Outcome, Phase};
use crate::plan::{plan_mint, planned, MintArgs, MintArgsView, MintPlan, MintPlanView};
use crate::validator::{validate_accounts, verdict_for};

verus! {

/// What the instruction decides: the calls to make, or the error it fails
/// with before any call.
pub open spec fn decided(ctx: Context<MintAccounts>, args: MintArgsView, keying: IdentityKeying) -> Result<MintPlanView, CustomError> {
    match verdict_for(ctx.accounts, keying, ctx.program_id@) {
        Ok(bumps) => Ok(planned(ctx.accounts, args, keying, bumps)),
        Err(error) => Err(error),
    }
}

/// The view of what an entry point returns.
pub open spec fn decision_view(decision: Result<MintPlan, CustomError>) -> Result<MintPlanView, CustomError> {
    match decision {
        Ok(plan) => Ok(plan@),
        Err(error) => Err(error),
    }
}

/// The outcome of the check, as the first piece of work of the instruction.
pub open spec fn check_outcome(decision: Result<MintPlanView, CustomError>) -> Outcome {
    match decision {
        Ok(_) => Ok(()),
        Err(error) => Err(error),
    }
}

/// The phase the instruction ends in, where `outcomes` are those of its
/// calls in turn and of its return.
pub open spec fn final_phase(ctx: Context<MintAccounts>, args: MintArgsView, keying: IdentityKeying, outcomes: Seq<Outcome>) -> Phase {
    run(Phase::Start, seq![check_outcome(decided(ctx, args, keying))] + outcomes)
}

/// What the instruction leaves behind.
pub open spec fn final_effects(ctx: Context<MintAccounts>, args: MintArgsView, keying: IdentityKeying, outcomes: Seq<Outcome>) -> EffectsView {
    match decided(ctx, args, keying) {
        Ok(plan) => final_phase(ctx, args, keying, outcomes).effects(plan),
        Err(_) => EffectsView::nothing(),
    }
}

/// The mint instruction: checks the accounts and lays out the calls.
///
/// Fails with the error of the first check that fails, and then no call is
/// laid out.
pub fn mint_credential(ctx: &Context<MintAccounts>, args: MintArgs, keying: IdentityKeying) -> (decision: Result<MintPlan, CustomError>)
    ensures
        decision_view(decision) == decided(*ctx, args@, keying),
{
    match validate_accounts(&ctx.accounts, keying, &ctx.program_id) {
        Ok(bumps) => Ok(plan_mint(&ctx.accounts, args, keying, &bumps)),
        Err(error) => Err(error),
    }
}

/// The mint instruction with the identity record keyed by the owner's wallet.
pub fn mint_nft(ctx: Context<MintNft>, name: String, symbol: String, uri: String, user_id_hash: [u8; 32]) -> (decision: Result<MintPlan, CustomError>)
    ensures
        decision_view(decision) == decided(
            Context { program_id: ctx.program_id, accounts: ctx.accounts.general() },
            MintArgsView { name: name@, symbol: symbol@, uri: uri@, user_id_hash },
            IdentityKeying::ByWallet,
        ),
{
    let general = Context { program_id: ctx.program_id, accounts: ctx.accounts.to_mint_accounts() };
    mint_credential(&general, MintArgs { name, symbol, uri, user_id_hash }, IdentityKeying::ByWallet)
}

/// The mint instruction with the identity record keyed by the mint.
pub fn mint_cv(ctx: Context<MintCv>, user_id_hash: [u8; 32], name: String, symbol: String, uri: String) -> (decision: Result<MintPlan, CustomError>)
    ensures
        decision_view(decision) == decided(
            Context { program_id: ctx.program_id, accounts: ctx.accounts.general() },
            MintArgsView { name: name@, symbol: symbol@, uri: uri@, user_id_hash },
            IdentityKeying::ByMint,
        ),
{
    let general = Context { program_id: ctx.program_id, accounts: ctx.accounts.to_mint_accounts() };
    mint_credential(&general, MintArgs { name, symbol, uri, user_id_hash }, IdentityKeying::ByMint)
}

/// Updating the metadata is not offered: the call fails, whoever makes it.
pub fn update_uri(_ctx: Context<UpdateUri>, _new_uri: String) -> (refused: Result<(), CustomError>)
    ensures
        refused == Err::<(), CustomError>(CustomError::UpdateUnsupported),
{
    Err(CustomError::UpdateUnsupported)
}

/// The first outcome to report for an instruction: that of its check.
pub fn checked(decision: &Result<MintPlan, CustomError>) -> (outcome: Outcome)
    ensures
        outcome == check_outcome(decision_view(*decision)),
{
    match decision {
        Ok(_) => Ok(()),
        Err(error) => Err(*error),
    }
}

} // verus!
