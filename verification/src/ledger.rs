use vstd::prelude::*;
use crate::error::VestingError;
use crate::pubkey::Pubkey;

verus! {

/// Whether the ledger lets tokens move on an account.
#[derive(Clone, Copy, Debug, PartialEq, Eq, Structural)]
pub enum AccountState {
    Thawed,
    Frozen,
}

/// What the guard reads of a token account: its address, its owner, the mint
/// it belongs to, its balance and its freeze state.
#[derive(Clone, Copy, Debug, PartialEq, Eq)]
pub struct TokenAccount {
    pub key: Pubkey,
    pub owner: Pubkey,
    pub mint: Pubkey,
    pub amount: u64,
    pub state: AccountState,
}

impl TokenAccount {
    /// Whether the account is frozen.
    pub fn is_frozen(&self) -> (frozen: bool)
        ensures
            frozen == (self.state is Frozen),
    {
        match self.state {
            AccountState::Frozen => true,
            AccountState::Thawed => false,
        }
    }
}

/// A call that the guard asks the token ledger to perform.
#[derive(Clone, Copy, Debug, PartialEq, Eq)]
pub enum LedgerCall {
    /// Freeze `account` of `mint`, signed by the mint's freeze authority.
    Freeze { account: Pubkey, mint: Pubkey, authority: Pubkey },
    /// Thaw `account` of `mint`, signed by the mint's freeze authority.
    Thaw { account: Pubkey, mint: Pubkey, authority: Pubkey },
    /// Move `amount` tokens from `source` to `dest`, authorized by `authority`.
    Transfer { source: Pubkey, dest: Pubkey, authority: Pubkey, amount: u64 },
    /// Hand the freeze authority over `mint` from `current_authority` to
    /// `new_authority`.
    SetFreezeAuthority { mint: Pubkey, current_authority: Pubkey, new_authority: Pubkey },
}

/// Why the ledger refuses a call.
#[derive(Clone, Copy, Debug, PartialEq, Eq, Structural)]
pub enum LedgerError {
    /// The source account holds less than the amount to move.
    InsufficientBalance,
}

/// The token ledger as the guard sees it: which accounts are frozen, what
/// each account holds, and who may freeze and thaw the accounts of a mint.
/// The guard never holds a ledger; this is what its calls are measured
/// against.
pub struct Ledger {
    pub frozen: Set<Pubkey>,
    pub balances: Map<Pubkey, nat>,
    pub freeze_authority: Map<Pubkey, Pubkey>,
}

impl Ledger {
    /// Whether `account` is frozen.
    pub open spec fn is_frozen(self, account: Pubkey) -> bool {
        self.frozen.contains(account)
    }

    /// The balance of `account`; an account that the ledger does not know
    /// holds nothing.
    pub open spec fn balance_of(self, account: Pubkey) -> nat {
        if self.balances.dom().contains(account) {
            self.balances[account]
        } else {
            0
        }
    }

    /// Whether `account` shows the freeze state and balance that the ledger
    /// has for its address.
    pub open spec fn shows(self, account: TokenAccount) -> bool {
        &&& self.is_frozen(account.key) == (account.state is Frozen)
        &&& self.balance_of(account.key) == account.amount
    }

    /// The ledger after one call. Freezing and thawing set the state of the
    /// account whatever it was. A transfer is refused when the source holds
    /// too little, and moves nothing from an account to itself.
    pub open spec fn apply(self, call: LedgerCall) -> Result<Ledger, LedgerError> {
        match call {
            LedgerCall::Freeze { account, .. } => Ok(
                Ledger { frozen: self.frozen.insert(account), ..self },
            ),
            LedgerCall::Thaw { account, .. } => Ok(
                Ledger { frozen: self.frozen.remove(account), ..self },
            ),
            LedgerCall::Transfer { source, dest, amount, .. } => {
                if self.balance_of(source) < amount {
                    Err(LedgerError::InsufficientBalance)
                } else if source == dest {
                    Ok(self)
                } else {
                    Ok(
                        Ledger {
                            balances: self.balances.insert(
                                source,
                                (self.balance_of(source) - amount) as nat,
                            ).insert(dest, self.balance_of(dest) + amount as nat),
                            ..self
                        },
                    )
                }
            },
            LedgerCall::SetFreezeAuthority { mint, new_authority, .. } => Ok(
                Ledger { freeze_authority: self.freeze_authority.insert(mint, new_authority), ..self },
            ),
        }
    }

    /// The ledger after `calls`, performed in order as one transaction: the
    /// first refusal ends it, no later call is made, and nothing of it
    /// stays.
    pub open spec fn run(self, calls: Seq<LedgerCall>) -> Result<Ledger, LedgerError>
        decreases calls.len(),
    {
        if calls.len() == 0 {
            Ok(self)
        } else {
            match self.apply(calls.first()) {
                Ok(next) => next.run(calls.drop_first()),
                Err(e) => Err(e),
            }
        }
    }
}

/// Performing one call as a transaction is applying it.
pub proof fn lemma_run_one(ledger: Ledger, call: LedgerCall)
    ensures
        ledger.run(seq![call]) == ledger.apply(call),
{
    reveal_with_fuel(Ledger::run, 2);
    assert(seq![call].first() == call);
    assert(seq![call].drop_first() =~= Seq::<LedgerCall>::empty());
}

/// Performing `first` and then `rest` in one transaction is performing
/// `first` and, where that was accepted, `rest` on the ledger it left; a
/// refusal within `first` is the refusal of the whole.
pub proof fn lemma_run_concat(ledger: Ledger, first: Seq<LedgerCall>, rest: Seq<LedgerCall>)
    ensures
        ledger.run(first + rest) == match ledger.run(first) {
            Ok(mid) => mid.run(rest),
            Err(e) => Err(e),
        },
    decreases first.len(),
{
    if first.len() == 0 {
        assert(first + rest =~= rest);
    } else {
        assert((first + rest).first() == first.first());
        assert((first + rest).drop_first() =~= first.drop_first() + rest);
        if let Ok(next) = ledger.apply(first.first()) {
            lemma_run_concat(next, first.drop_first(), rest);
        }
    }
}

/// What an operation of the guard hands out, with the calls as a sequence:
/// the calls to perform in order, or the refusal.
pub open spec fn calls_of(r: Result<Vec<LedgerCall>, VestingError>) -> Result<
    Seq<LedgerCall>,
    VestingError,
> {
    match r {
        Ok(calls) => Ok(calls@),
        Err(e) => Err(e),
    }
}

} // verus!
