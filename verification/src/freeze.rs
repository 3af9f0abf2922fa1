use vstd::prelude::*;
use crate::account::GlobalInfo;
use crate::error::VestingError;
use crate::ledger::{
    Ledger,
    LedgerCall,
    LedgerError,
    TokenAccount,
    calls_of,
    lemma_run_concat,
    lemma_run_one,
};
use crate::pubkey::Pubkey;

verus! {

/// A request to freeze a token account: the guard's record and address, the
/// mint and the account.
#[derive(Clone, Copy, Debug)]
pub struct FreezeTokenAccount {
    pub global_authority: GlobalInfo,
    pub global_authority_key: Pubkey,
    pub vesting_token: Pubkey,
    pub user_token_account: TokenAccount,
}

/// A request by `applicant` to thaw a token account.
#[derive(Clone, Copy, Debug)]
pub struct ThawTokenAccount {
    pub applicant: Pubkey,
    pub global_authority: GlobalInfo,
    pub global_authority_key: Pubkey,
    pub vesting_token: Pubkey,
    pub user_token_account: TokenAccount,
}

/// A request by `applicant` to move tokens from `user_token_account` to
/// `dest_token_account`, whatever their freeze state.
#[derive(Clone, Copy, Debug)]
pub struct TransferWithUnlock {
    pub applicant: Pubkey,
    pub global_authority: GlobalInfo,
    pub global_authority_key: Pubkey,
    pub vesting_token: Pubkey,
    pub user_token_account: TokenAccount,
    pub dest_token_account: TokenAccount,
}

impl FreezeTokenAccount {
    /// The call that freezes the account.
    pub open spec fn freeze_call(self) -> LedgerCall {
        LedgerCall::Freeze {
            account: self.user_token_account.key,
            mint: self.vesting_token,
            authority: self.global_authority_key,
        }
    }

    /// The calls of the request: none while the switch is 0, else the one
    /// that freezes the account.
    pub open spec fn plan(self) -> Seq<LedgerCall> {
        if self.global_authority.active == 0 {
            Seq::empty()
        } else {
            seq![self.freeze_call()]
        }
    }
}

impl ThawTokenAccount {
    /// The call that thaws the account.
    pub open spec fn thaw_call(self) -> LedgerCall {
        LedgerCall::Thaw {
            account: self.user_token_account.key,
            mint: self.vesting_token,
            authority: self.global_authority_key,
        }
    }

    /// Whether the request is permitted: protections are not enforced, or
    /// the applicant is whitelisted.
    pub open spec fn is_permitted(self) -> bool {
        !self.global_authority@.is_enforcing() || self.global_authority@.is_whitelisted(
            self.applicant,
        )
    }

    /// What the request gives: the one call that thaws the account, or the
    /// refusal of the applicant.
    pub open spec fn outcome(self) -> Result<Seq<LedgerCall>, VestingError> {
        if self.is_permitted() {
            Ok(seq![self.thaw_call()])
        } else {
            Err(VestingError::NotAllowedApplicant)
        }
    }
}

impl TransferWithUnlock {
    /// The principals of which one has to be whitelisted: the applicant, the
    /// owner and the address of the source account, the owner and the
    /// address of the destination account.
    pub open spec fn candidates(self) -> Seq<Pubkey> {
        seq![
            self.applicant,
            self.user_token_account.owner,
            self.user_token_account.key,
            self.dest_token_account.owner,
            self.dest_token_account.key,
        ]
    }

    /// Whether the whitelist is asked at all: protections are enforced and
    /// one of the two accounts is frozen.
    pub open spec fn is_guarded(self) -> bool {
        self.global_authority@.is_enforcing() && (self.user_token_account.state is Frozen
            || self.dest_token_account.state is Frozen)
    }

    /// Whether the request is permitted: the whitelist is not asked, or one
    /// of the candidates is on it.
    pub open spec fn is_permitted(self) -> bool {
        !self.is_guarded() || self.global_authority@.any_whitelisted(self.candidates())
    }

    /// The accounts found frozen when the request is made: the source
    /// first, then the destination.
    pub open spec fn recorded(self) -> Seq<Pubkey> {
        (if self.user_token_account.state is Frozen {
            seq![self.user_token_account.key]
        } else {
            Seq::empty()
        }) + (if self.dest_token_account.state is Frozen {
            seq![self.dest_token_account.key]
        } else {
            Seq::empty()
        })
    }

    /// The call that thaws `account`.
    pub open spec fn thaw_call(self, account: Pubkey) -> LedgerCall {
        LedgerCall::Thaw { account, mint: self.vesting_token, authority: self.global_authority_key }
    }

    /// The call that freezes `account`.
    pub open spec fn freeze_call(self, account: Pubkey) -> LedgerCall {
        LedgerCall::Freeze { account, mint: self.vesting_token, authority: self.global_authority_key }
    }

    /// The call that moves `amount` from the source to the destination, on
    /// the applicant's authority.
    pub open spec fn transfer_call(self, amount: u64) -> LedgerCall {
        LedgerCall::Transfer {
            source: self.user_token_account.key,
            dest: self.dest_token_account.key,
            authority: self.applicant,
            amount,
        }
    }

    /// One thaw for each recorded account.
    pub open spec fn thaws(self) -> Seq<LedgerCall> {
        Seq::new(self.recorded().len(), |i: int| self.thaw_call(self.recorded()[i]))
    }

    /// One freeze for each recorded account while protections are enforced,
    /// none otherwise.
    pub open spec fn refreezes(self) -> Seq<LedgerCall> {
        if self.global_authority@.is_enforcing() {
            Seq::new(self.recorded().len(), |i: int| self.freeze_call(self.recorded()[i]))
        } else {
            Seq::empty()
        }
    }

    /// The calls of a permitted request: the thaws, the transfer, the
    /// freezes.
    pub open spec fn plan(self, amount: u64) -> Seq<LedgerCall> {
        self.thaws() + seq![self.transfer_call(amount)] + self.refreezes()
    }

    /// What the request gives: its calls, or the refusal when none of the
    /// candidates is whitelisted.
    pub open spec fn outcome(self, amount: u64) -> Result<Seq<LedgerCall>, VestingError> {
        if self.is_permitted() {
            Ok(self.plan(amount))
        } else {
            Err(VestingError::NotAllowedApplicant)
        }
    }
}

/// Hands out the call that freezes the account of the request, or no call
/// while the switch is 0.
pub fn freeze_token_account(ctx: &FreezeTokenAccount) -> (r: Result<Vec<LedgerCall>, VestingError>)
    ensures
        calls_of(r) == Ok::<Seq<LedgerCall>, VestingError>(ctx.plan()),
{
    let mut calls: Vec<LedgerCall> = Vec::new();
    if ctx.global_authority.active != 0 {
        calls.push(
            LedgerCall::Freeze {
                account: ctx.user_token_account.key,
                mint: ctx.vesting_token,
                authority: ctx.global_authority_key,
            },
        );
    }
    assert(calls@ =~= ctx.plan());
    Ok(calls)
}

/// Hands out the call that thaws the account of the request. While
/// protections are enforced, an applicant who is not whitelisted is refused
/// and no call is handed out.
pub fn thaw_token_account(ctx: &ThawTokenAccount) -> (r: Result<Vec<LedgerCall>, VestingError>)
    requires
        ctx.global_authority.wf(),
    ensures
        calls_of(r) == ctx.outcome(),
{
    let allowed = ctx.global_authority.is_whitelisted(&ctx.applicant);
    if ctx.global_authority.active == 1 && !allowed {
        return Err(VestingError::NotAllowedApplicant);
    }
    let mut calls: Vec<LedgerCall> = Vec::new();
    calls.push(
        LedgerCall::Thaw {
            account: ctx.user_token_account.key,
            mint: ctx.vesting_token,
            authority: ctx.global_authority_key,
        },
    );
    assert(calls@ =~= seq![ctx.thaw_call()]);
    Ok(calls)
}

/// Hands out the calls that move `amount` tokens between two accounts of
/// which either may be frozen: the frozen ones are thawed, the tokens move,
/// and, while protections are enforced, the accounts that were frozen are
/// frozen again. Which accounts count as frozen is decided once, from the
/// request. While protections are enforced and one of the accounts is
/// frozen, the request is refused unless a candidate is whitelisted. Whether
/// the source holds `amount` is the ledger's to decide when the tokens move:
/// the calls are handed out whatever the balance.
pub fn transfer_with_unlock(ctx: &TransferWithUnlock, amount: u64) -> (r: Result<
    Vec<LedgerCall>,
    VestingError,
>)
    requires
        ctx.global_authority.wf(),
    ensures
        calls_of(r) == ctx.outcome(amount),
{
    let source = &ctx.user_token_account;
    let dest = &ctx.dest_token_account;
    let candidates = [ctx.applicant, source.owner, source.key, dest.owner, dest.key];
    assert(candidates@ =~= ctx.candidates());
    let allowed = ctx.global_authority.any_whitelisted(&candidates);
    let enforcing = ctx.global_authority.active == 1;
    let source_frozen = source.is_frozen();
    let dest_frozen = dest.is_frozen();
    if enforcing && (source_frozen || dest_frozen) && !allowed {
        return Err(VestingError::NotAllowedApplicant);
    }
    let mint = ctx.vesting_token;
    let authority = ctx.global_authority_key;
    let mut calls: Vec<LedgerCall> = Vec::new();
    if source_frozen {
        calls.push(LedgerCall::Thaw { account: source.key, mint, authority });
    }
    if dest_frozen {
        calls.push(LedgerCall::Thaw { account: dest.key, mint, authority });
    }
    assert(calls@ =~= ctx.thaws());
    calls.push(
        LedgerCall::Transfer { source: source.key, dest: dest.key, authority: ctx.applicant, amount },
    );
    if enforcing {
        if source_frozen {
            calls.push(LedgerCall::Freeze { account: source.key, mint, authority });
        }
        if dest_frozen {
            calls.push(LedgerCall::Freeze { account: dest.key, mint, authority });
        }
    }
    assert(calls@ =~= ctx.plan(amount));
    Ok(calls)
}

/// The thaws of a transfer are all accepted. They leave frozen what was
/// frozen and is not recorded, and touch nothing else.
proof fn lemma_thaws_clear_the_recorded(ctx: TransferWithUnlock, ledger: Ledger)
    ensures
        ledger.run(ctx.thaws()) matches Ok(mid) && {
            &&& mid.balances == ledger.balances
            &&& mid.freeze_authority == ledger.freeze_authority
            &&& forall|a: Pubkey|
                mid.is_frozen(a) == (ledger.is_frozen(a) && !ctx.recorded().contains(a))
        },
{
    let recorded = ctx.recorded();
    if recorded.len() == 0 {
        assert(ctx.thaws() =~= Seq::empty());
    } else if recorded.len() == 1 {
        let call = ctx.thaw_call(recorded[0]);
        assert(ctx.thaws() =~= seq![call]);
        lemma_run_one(ledger, call);
        let mid = ledger.apply(call).unwrap();
        assert forall|a: Pubkey| mid.is_frozen(a) == (ledger.is_frozen(a) && !recorded.contains(a)) by {
            if a == recorded[0] {
                assert(recorded.contains(a));
            }
        }
    } else {
        let one = ctx.thaw_call(recorded[0]);
        let two = ctx.thaw_call(recorded[1]);
        assert(ctx.thaws() =~= seq![one] + seq![two]);
        lemma_run_concat(ledger, seq![one], seq![two]);
        lemma_run_one(ledger, one);
        let half = ledger.apply(one).unwrap();
        lemma_run_one(half, two);
        let mid = half.apply(two).unwrap();
        assert forall|a: Pubkey| mid.is_frozen(a) == (ledger.is_frozen(a) && !recorded.contains(a)) by {
            if a == recorded[0] || a == recorded[1] {
                assert(recorded.contains(a));
            }
        }
    }
}

/// The freezes that end a transfer are all accepted. While protections are
/// enforced they freeze the recorded accounts and touch nothing else; while
/// they are not, there are none.
proof fn lemma_refreezes_restore_the_recorded(ctx: TransferWithUnlock, ledger: Ledger)
    ensures
        ledger.run(ctx.refreezes()) matches Ok(after) && {
            &&& after.balances == ledger.balances
            &&& after.freeze_authority == ledger.freeze_authority
            &&& forall|a: Pubkey|
                after.is_frozen(a) == (ledger.is_frozen(a) || (ctx.global_authority@.is_enforcing()
                    && ctx.recorded().contains(a)))
        },
{
    let recorded = ctx.recorded();
    if !ctx.global_authority@.is_enforcing() || recorded.len() == 0 {
        assert(ctx.refreezes() =~= Seq::empty());
    } else if recorded.len() == 1 {
        let call = ctx.freeze_call(recorded[0]);
        assert(ctx.refreezes() =~= seq![call]);
        lemma_run_one(ledger, call);
        let after = ledger.apply(call).unwrap();
        assert forall|a: Pubkey| after.is_frozen(a) == (ledger.is_frozen(a) || recorded.contains(a)) by {
            if a == recorded[0] {
                assert(recorded.contains(a));
            }
        }
    } else {
        let one = ctx.freeze_call(recorded[0]);
        let two = ctx.freeze_call(recorded[1]);
        assert(ctx.refreezes() =~= seq![one] + seq![two]);
        lemma_run_concat(ledger, seq![one], seq![two]);
        lemma_run_one(ledger, one);
        let half = ledger.apply(one).unwrap();
        lemma_run_one(half, two);
        let after = half.apply(two).unwrap();
        assert forall|a: Pubkey| after.is_frozen(a) == (ledger.is_frozen(a) || recorded.contains(a)) by {
            if a == recorded[0] || a == recorded[1] {
                assert(recorded.contains(a));
            }
        }
    }
}

/// A permitted transfer that the balance covers goes through on every ledger
/// that the two accounts of the request are read from. When the tokens move,
/// neither account is frozen. The tokens leave the source and reach the
/// destination, and no other balance changes. While protections are
/// enforced, every account is frozen afterwards exactly if it was frozen
/// before; while they are not, the two accounts are left thawed.
pub proof fn lemma_transfer_keeps_freeze_state(ctx: TransferWithUnlock, amount: u64, ledger: Ledger)
    requires
        ledger.shows(ctx.user_token_account),
        ledger.shows(ctx.dest_token_account),
        ctx.is_permitted(),
        amount <= ctx.user_token_account.amount,
    ensures
        ledger.run(ctx.thaws()) matches Ok(thawed) && {
            &&& !thawed.is_frozen(ctx.user_token_account.key)
            &&& !thawed.is_frozen(ctx.dest_token_account.key)
        },
        ctx.outcome(amount) matches Ok(calls) && ledger.run(calls) matches Ok(after) && {
            let source = ctx.user_token_account;
            let dest = ctx.dest_token_account;
            &&& after.freeze_authority == ledger.freeze_authority
            &&& ctx.global_authority@.is_enforcing() ==> after.frozen == ledger.frozen
            &&& !ctx.global_authority@.is_enforcing() ==> forall|a: Pubkey|
                after.is_frozen(a) == (ledger.is_frozen(a) && a != source.key && a != dest.key)
            &&& source.key != dest.key ==> {
                &&& after.balance_of(source.key) == source.amount - amount
                &&& after.balance_of(dest.key) == dest.amount + amount
            }
            &&& source.key == dest.key ==> after.balance_of(source.key) == source.amount
            &&& forall|a: Pubkey|
                a != source.key && a != dest.key ==> after.balance_of(a) == ledger.balance_of(a)
        },
{
    let source = ctx.user_token_account;
    let dest = ctx.dest_token_account;
    let recorded = ctx.recorded();
    let transfer = ctx.transfer_call(amount);
    lemma_thaws_clear_the_recorded(ctx, ledger);
    let thawed = ledger.run(ctx.thaws()).unwrap();
    assert(source.state is Frozen ==> recorded[0] == source.key);
    assert(dest.state is Frozen ==> recorded[recorded.len() - 1] == dest.key);
    assert(forall|a: Pubkey| recorded.contains(a) ==> a == source.key || a == dest.key);
    assert(forall|a: Pubkey| recorded.contains(a) ==> ledger.is_frozen(a));
    lemma_run_concat(ledger, ctx.thaws(), seq![transfer]);
    lemma_run_one(thawed, transfer);
    let moved = thawed.apply(transfer).unwrap();
    lemma_run_concat(ledger, ctx.thaws() + seq![transfer], ctx.refreezes());
    lemma_refreezes_restore_the_recorded(ctx, moved);
    let after = moved.run(ctx.refreezes()).unwrap();
    assert(ledger.run(ctx.plan(amount)) == Ok::<Ledger, LedgerError>(after));
    if ctx.global_authority@.is_enforcing() {
        assert forall|a: Pubkey| after.frozen.contains(a) == ledger.frozen.contains(a) by {
            assert(after.is_frozen(a) == (moved.is_frozen(a) || recorded.contains(a)));
            assert(thawed.is_frozen(a) == (ledger.is_frozen(a) && !recorded.contains(a)));
        }
        assert(after.frozen =~= ledger.frozen);
    }
}

/// A permitted transfer of more than the source holds is refused by the
/// ledger for want of balance, so nothing of the transaction stays.
pub proof fn lemma_transfer_beyond_balance_fails(ctx: TransferWithUnlock, amount: u64, ledger: Ledger)
    requires
        ledger.shows(ctx.user_token_account),
        ctx.is_permitted(),
        amount > ctx.user_token_account.amount,
    ensures
        ctx.outcome(amount) matches Ok(calls) && ledger.run(calls) == Err::<Ledger, LedgerError>(
            LedgerError::InsufficientBalance,
        ),
{
    let transfer = ctx.transfer_call(amount);
    lemma_thaws_clear_the_recorded(ctx, ledger);
    let thawed = ledger.run(ctx.thaws()).unwrap();
    lemma_run_concat(ledger, ctx.thaws(), seq![transfer]);
    lemma_run_one(thawed, transfer);
    lemma_run_concat(ledger, ctx.thaws() + seq![transfer], ctx.refreezes());
}

/// While protections are enforced, a transfer from a frozen source to a
/// thawed destination that a whitelisted candidate backs and the balance
/// covers is exactly: thaw the source, move the tokens, freeze the source.
/// Afterwards the source is frozen, the destination is thawed, and the
/// amount has moved from the one to the other.
pub proof fn lemma_transfer_from_frozen_source(ctx: TransferWithUnlock, amount: u64, ledger: Ledger)
    requires
        ledger.shows(ctx.user_token_account),
        ledger.shows(ctx.dest_token_account),
        ctx.global_authority@.is_enforcing(),
        ctx.user_token_account.state is Frozen,
        ctx.dest_token_account.state is Thawed,
        ctx.global_authority@.any_whitelisted(ctx.candidates()),
        amount <= ctx.user_token_account.amount,
    ensures
        ctx.outcome(amount) == Ok::<Seq<LedgerCall>, VestingError>(
            seq![
                ctx.thaw_call(ctx.user_token_account.key),
                ctx.transfer_call(amount),
                ctx.freeze_call(ctx.user_token_account.key),
            ],
        ),
        ledger.run(ctx.plan(amount)) matches Ok(after) && {
            &&& after.is_frozen(ctx.user_token_account.key)
            &&& !after.is_frozen(ctx.dest_token_account.key)
            &&& after.balance_of(ctx.user_token_account.key) == ctx.user_token_account.amount - amount
            &&& after.balance_of(ctx.dest_token_account.key) == ctx.dest_token_account.amount + amount
        },
{
    lemma_transfer_keeps_freeze_state(ctx, amount, ledger);
    assert(ctx.plan(amount) =~= seq![
        ctx.thaw_call(ctx.user_token_account.key),
        ctx.transfer_call(amount),
        ctx.freeze_call(ctx.user_token_account.key),
    ]);
}

/// While the switch is 0 nobody is refused and nothing is frozen: a thaw
/// and a transfer are permitted whoever asks, and a freeze hands out no
/// call.
pub proof fn lemma_switched_off_permits_all(
    freeze: FreezeTokenAccount,
    thaw: ThawTokenAccount,
    transfer: TransferWithUnlock,
    amount: u64,
)
    requires
        freeze.global_authority.active == 0,
        thaw.global_authority.active == 0,
        transfer.global_authority.active == 0,
    ensures
        freeze.plan() == Seq::<LedgerCall>::empty(),
        thaw.is_permitted(),
        thaw.outcome() is Ok,
        transfer.is_permitted(),
        transfer.outcome(amount) is Ok,
        transfer.refreezes() == Seq::<LedgerCall>::empty(),
{
}

/// While the switch is not 0, the call of a freeze is accepted and leaves
/// the account frozen, whatever it was, and everything else as it was.
pub proof fn lemma_freeze_makes_frozen(ctx: FreezeTokenAccount, ledger: Ledger)
    requires
        ctx.global_authority.active != 0,
    ensures
        ledger.run(ctx.plan()) matches Ok(after) && {
            &&& after.is_frozen(ctx.user_token_account.key)
            &&& forall|a: Pubkey|
                a != ctx.user_token_account.key ==> after.is_frozen(a) == ledger.is_frozen(a)
            &&& after.balances == ledger.balances
            &&& after.freeze_authority == ledger.freeze_authority
        },
{
    lemma_run_one(ledger, ctx.freeze_call());
}

/// While protections are enforced, the thaw of an applicant who is not
/// whitelisted is refused, and so no call reaches the ledger.
pub proof fn lemma_thaw_by_stranger_is_refused(ctx: ThawTokenAccount)
    requires
        ctx.global_authority@.is_enforcing(),
        !ctx.global_authority@.is_whitelisted(ctx.applicant),
    ensures
        ctx.outcome() == Err::<Seq<LedgerCall>, VestingError>(VestingError::NotAllowedApplicant),
{
}

/// The thaw of a whitelisted applicant, and any thaw while protections are
/// not enforced, is accepted and leaves the account thawed, whatever it was,
/// and everything else as it was.
pub proof fn lemma_permitted_thaw_makes_thawed(ctx: ThawTokenAccount, ledger: Ledger)
    requires
        ctx.global_authority@.is_whitelisted(ctx.applicant) || !ctx.global_authority@.is_enforcing(),
    ensures
        ctx.outcome() matches Ok(calls) && ledger.run(calls) matches Ok(after) && {
            &&& !after.is_frozen(ctx.user_token_account.key)
            &&& forall|a: Pubkey|
                a != ctx.user_token_account.key ==> after.is_frozen(a) == ledger.is_frozen(a)
            &&& after.balances == ledger.balances
            &&& after.freeze_authority == ledger.freeze_authority
        },
{
    lemma_run_one(ledger, ctx.thaw_call());
}

} // verus!
