use vstd::prelude::*;
use crate::account::{GlobalInfo, GlobalState, MAX_ALLOWED_COUNT};
use crate::error::VestingError;
use crate::ledger::{Ledger, LedgerCall, calls_of, lemma_run_one};
use crate::pubkey::Pubkey;

verus! {

/// A request to set the guard up: the record to fill and the principal who
/// becomes its admin.
#[derive(Clone, Copy, Debug)]
pub struct Initialize {
    pub global_authority: GlobalInfo,
    pub admin: Pubkey,
}

/// A request to change the admin or the switch: the record to change and
/// the principal who asks.
#[derive(Clone, Copy, Debug)]
pub struct UpdateGlobalState {
    pub global_authority: GlobalInfo,
    pub admin: Pubkey,
}

/// A request to hand the freeze authority over the mint to `new_authority`:
/// the guard's record and address, the principal who asks, the mint and the
/// new authority.
#[derive(Clone, Copy, Debug)]
pub struct TransferAuthority {
    pub global_authority: GlobalInfo,
    pub global_authority_key: Pubkey,
    pub admin: Pubkey,
    pub vesting_token: Pubkey,
    pub new_authority: Pubkey,
}

impl TransferAuthority {
    /// The call that hands the freeze authority over.
    pub open spec fn authority_call(self) -> LedgerCall {
        LedgerCall::SetFreezeAuthority {
            mint: self.vesting_token,
            current_authority: self.global_authority_key,
            new_authority: self.new_authority,
        }
    }

    /// What the request gives: the one call, or the refusal of a caller who
    /// is not the admin.
    pub open spec fn outcome(self) -> Result<Seq<LedgerCall>, VestingError> {
        if self.admin != self.global_authority.admin {
            Err(VestingError::InvalidSuperOwner)
        } else {
            Ok(seq![self.authority_call()])
        }
    }
}

/// Sets the guard up: the caller becomes the admin, protections are
/// enforced and nobody is whitelisted. Every slot of the whitelist holds the
/// all-zero key.
pub fn initialize(ctx: &mut Initialize) -> (r: Result<(), VestingError>)
    ensures
        r is Ok,
        final(ctx).admin == old(ctx).admin,
        final(ctx).global_authority.wf(),
        final(ctx).global_authority@ == GlobalState::initial(old(ctx).admin),
        final(ctx).global_authority.whitelisted_count == 0,
        forall|i: int|
            0 <= i < MAX_ALLOWED_COUNT ==> (#[trigger] final(ctx).global_authority.whitelist@[i]).is_zero(),
{
    let mut state = GlobalInfo::default();
    state.admin = ctx.admin;
    ctx.global_authority = state;
    assert(ctx.global_authority@.members =~= Seq::empty());
    Ok(())
}

/// Replaces the admin, the switch, both or neither, at the admin's request.
/// The whitelist is not touched. A refusal changes nothing.
pub fn update_global_state(
    ctx: &mut UpdateGlobalState,
    new_admin: Option<Pubkey>,
    active_state: Option<u64>,
) -> (r: Result<(), VestingError>)
    ensures
        final(ctx).admin == old(ctx).admin,
        final(ctx).global_authority.whitelisted_count == old(ctx).global_authority.whitelisted_count,
        final(ctx).global_authority.whitelist == old(ctx).global_authority.whitelist,
        old(ctx).global_authority.wf() ==> final(ctx).global_authority.wf(),
        match old(ctx).global_authority@.update(old(ctx).admin, new_admin, active_state) {
            Ok(next) => r is Ok && final(ctx).global_authority@ == next,
            Err(e) => r == Err::<(), VestingError>(e) && *final(ctx) == *old(ctx),
        },
{
    if ctx.admin != ctx.global_authority.admin {
        return Err(VestingError::InvalidSuperOwner);
    }
    if let Some(new_super_admin) = new_admin {
        ctx.global_authority.admin = new_super_admin;
    }
    if let Some(new_active) = active_state {
        ctx.global_authority.active = new_active;
    }
    Ok(())
}

/// Hands out the call that makes `new_authority` the freeze authority over
/// the mint, at the admin's request.
pub fn transfer_freeze_authority(ctx: &TransferAuthority) -> (r: Result<Vec<LedgerCall>, VestingError>)
    ensures
        calls_of(r) == ctx.outcome(),
{
    if ctx.admin != ctx.global_authority.admin {
        return Err(VestingError::InvalidSuperOwner);
    }
    let mut calls: Vec<LedgerCall> = Vec::new();
    calls.push(
        LedgerCall::SetFreezeAuthority {
            mint: ctx.vesting_token,
            current_authority: ctx.global_authority_key,
            new_authority: ctx.new_authority,
        },
    );
    assert(calls@ =~= seq![ctx.authority_call()]);
    Ok(calls)
}

/// A caller who is not the admin is refused by each of the four admin-only
/// operations, whatever else holds of the request.
pub proof fn lemma_only_the_admin_is_served(
    state: GlobalState,
    caller: Pubkey,
    new_admin: Option<Pubkey>,
    active_state: Option<u64>,
    address: Pubkey,
    handover: TransferAuthority,
)
    requires
        caller != state.admin,
        handover.admin != handover.global_authority.admin,
    ensures
        state.update(caller, new_admin, active_state) == Err::<GlobalState, VestingError>(
            VestingError::InvalidSuperOwner,
        ),
        state.add(caller, address) == Err::<GlobalState, VestingError>(VestingError::InvalidSuperOwner),
        state.remove(caller, address) == Err::<GlobalState, VestingError>(
            VestingError::InvalidSuperOwner,
        ),
        handover.outcome() == Err::<Seq<LedgerCall>, VestingError>(VestingError::InvalidSuperOwner),
{
}

/// The hand-over that the admin asks for is accepted and makes
/// `new_authority` the freeze authority over the mint, whoever it was
/// before. Nothing else on the ledger changes.
pub proof fn lemma_handover_supersedes(ctx: TransferAuthority, ledger: Ledger)
    requires
        ctx.admin == ctx.global_authority.admin,
    ensures
        ctx.outcome() matches Ok(calls) && ledger.run(calls) matches Ok(after) && {
            &&& after.freeze_authority.dom().contains(ctx.vesting_token)
            &&& after.freeze_authority[ctx.vesting_token] == ctx.new_authority
            &&& forall|mint: Pubkey|
                mint != ctx.vesting_token && ledger.freeze_authority.dom().contains(mint)
                    ==> after.freeze_authority.dom().contains(mint) && after.freeze_authority[mint]
                    == ledger.freeze_authority[mint]
            &&& after.frozen == ledger.frozen
            &&& after.balances == ledger.balances
        },
{
    lemma_run_one(ledger, ctx.authority_call());
}

} // verus!
