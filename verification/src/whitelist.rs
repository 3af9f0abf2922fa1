use vstd::prelude::*;
use crate::account::{GlobalInfo, GlobalState, MAX_ALLOWED_COUNT, swap_remove};
use crate::error::VestingError;
use crate::pubkey::Pubkey;

verus! {

/// A request to put an address on the whitelist: the record to change and
/// the principal who asks.
#[derive(Clone, Copy, Debug)]
pub struct AddToWhitelist {
    pub global_authority: GlobalInfo,
    pub admin: Pubkey,
}

/// A request to take an address off the whitelist: the record to change and
/// the principal who asks.
#[derive(Clone, Copy, Debug)]
pub struct RemoveFromWhitelist {
    pub global_authority: GlobalInfo,
    pub admin: Pubkey,
}

/// Puts `address` on the whitelist. An address that is already there is
/// accepted and changes nothing. A refusal changes nothing either.
pub fn add_to_whitelist(ctx: &mut AddToWhitelist, address: Pubkey) -> (r: Result<(), VestingError>)
    requires
        old(ctx).global_authority.wf(),
    ensures
        final(ctx).admin == old(ctx).admin,
        final(ctx).global_authority.wf(),
        match old(ctx).global_authority@.add(old(ctx).admin, address) {
            Ok(next) => r is Ok && final(ctx).global_authority@ == next,
            Err(e) => r == Err::<(), VestingError>(e) && *final(ctx) == *old(ctx),
        },
        old(ctx).global_authority@.is_whitelisted(address) ==> *final(ctx) == *old(ctx),
        r is Ok && !old(ctx).global_authority@.is_whitelisted(address) ==> {
            &&& final(ctx).global_authority.whitelisted_count == old(ctx).global_authority.whitelisted_count + 1
            &&& final(ctx).global_authority.whitelist@ == old(ctx).global_authority.whitelist@.update(
                old(ctx).global_authority.whitelisted_count as int,
                address,
            )
        },
{
    if ctx.admin != ctx.global_authority.admin {
        return Err(VestingError::InvalidSuperOwner);
    }
    if ctx.global_authority.active != 1 {
        return Err(VestingError::VestingDeactived);
    }
    if ctx.global_authority.is_whitelisted(&address) {
        return Ok(());
    }
    let count: usize = ctx.global_authority.whitelisted_count as usize;
    if count >= MAX_ALLOWED_COUNT {
        return Err(VestingError::CapacityExceeded);
    }
    ctx.global_authority.whitelist[count] = address;
    ctx.global_authority.whitelisted_count += 1;
    proof {
        assert(ctx.global_authority@.members =~= old(ctx).global_authority@.members.push(address));
        lemma_edits_keep_well_formed(old(ctx).global_authority@, ctx.admin, address);
    }
    Ok(())
}

/// Takes `address` off the whitelist. The entry in the last used slot moves
/// into the slot that `address` had, unless that was the last one; the slot
/// given up keeps what it held. A refusal changes nothing.
pub fn remove_from_whitelist(ctx: &mut RemoveFromWhitelist, address: Pubkey) -> (r: Result<
    (),
    VestingError,
>)
    requires
        old(ctx).global_authority.wf(),
    ensures
        final(ctx).admin == old(ctx).admin,
        final(ctx).global_authority.wf(),
        match old(ctx).global_authority@.remove(old(ctx).admin, address) {
            Ok(next) => r is Ok && final(ctx).global_authority@ == next,
            Err(e) => r == Err::<(), VestingError>(e) && *final(ctx) == *old(ctx),
        },
        r is Ok ==> {
            &&& final(ctx).global_authority.whitelisted_count + 1 == old(ctx).global_authority.whitelisted_count
            &&& final(ctx).global_authority.whitelist@ == old(ctx).global_authority.whitelist@.update(
                old(ctx).global_authority@.members.index_of(address),
                old(ctx).global_authority@.members.last(),
            )
        },
{
    if ctx.admin != ctx.global_authority.admin {
        return Err(VestingError::InvalidSuperOwner);
    }
    if ctx.global_authority.active != 1 {
        return Err(VestingError::VestingDeactived);
    }
    let index: usize = match ctx.global_authority.position(&address) {
        Some(index) => index,
        None => {
            return Err(VestingError::InvalidWhitelistAddress);
        },
    };
    let count: usize = ctx.global_authority.whitelisted_count as usize;
    if index != count - 1 {
        let last = ctx.global_authority.whitelist[count - 1];
        ctx.global_authority.whitelist[index] = last;
    }
    ctx.global_authority.whitelisted_count -= 1;
    proof {
        let before = old(ctx).global_authority@.members;
        let after = ctx.global_authority@.members;
        assert(ctx.global_authority.whitelist@ =~= old(ctx).global_authority.whitelist@.update(
            index as int,
            before.last(),
        ));
        assert(after =~= swap_remove(before, index as int));
        lemma_edits_keep_well_formed(old(ctx).global_authority@, ctx.admin, address);
    }
    Ok(())
}

/// An accepted change of the whitelist leaves a state that is well formed.
pub proof fn lemma_edits_keep_well_formed(state: GlobalState, caller: Pubkey, address: Pubkey)
    requires
        state.wf(),
    ensures
        state.add(caller, address) matches Ok(next) ==> next.wf(),
        state.remove(caller, address) matches Ok(next) ==> next.wf(),
{
    if let Ok(next) = state.add(caller, address) {
        assert forall|i: int, j: int|
            0 <= i < next.members.len() && 0 <= j < next.members.len() && i != j implies next.members[i]
            != next.members[j] by {
            if !state.is_whitelisted(address) {
                if i == state.members.len() {
                    assert(state.members.contains(state.members[j]));
                } else if j == state.members.len() {
                    assert(state.members.contains(state.members[i]));
                }
            }
        }
    }
    if let Ok(next) = state.remove(caller, address) {
        lemma_remove_keeps_the_others(state, caller, address);
    }
}

/// Adding an address twice gives the state that adding it once gives: the
/// second time the address is found, nothing is appended and the count
/// stays.
pub proof fn lemma_add_twice_is_add_once(state: GlobalState, caller: Pubkey, address: Pubkey)
    requires
        state.wf(),
    ensures
        state.add(caller, address) matches Ok(once) ==> {
            &&& once.is_whitelisted(address)
            &&& once.members.no_duplicates()
            &&& once.add(caller, address) == Ok::<GlobalState, VestingError>(once)
        },
{
    if let Ok(once) = state.add(caller, address) {
        lemma_edits_keep_well_formed(state, caller, address);
        if !state.is_whitelisted(address) {
            assert(once.members[state.members.len() as int] == address);
        }
    }
}

/// The admin's request to remove an address that is not listed is refused
/// as such while protections are enforced.
pub proof fn lemma_remove_of_absent_is_refused(state: GlobalState, address: Pubkey)
    requires
        state.is_enforcing(),
        !state.is_whitelisted(address),
    ensures
        state.remove(state.admin, address) == Err::<GlobalState, VestingError>(
            VestingError::InvalidWhitelistAddress,
        ),
{
}

/// Removing an address takes exactly that address off the whitelist: it is
/// no longer listed, every other address is listed exactly if it was before,
/// and the list is shorter by one.
pub proof fn lemma_remove_keeps_the_others(state: GlobalState, caller: Pubkey, address: Pubkey)
    requires
        state.wf(),
    ensures
        state.remove(caller, address) matches Ok(next) ==> {
            &&& next.wf()
            &&& next.members.len() + 1 == state.members.len()
            &&& !next.is_whitelisted(address)
            &&& forall|other: Pubkey|
                other != address ==> next.is_whitelisted(other) == state.is_whitelisted(other)
        },
{
    if let Ok(next) = state.remove(caller, address) {
        let before = state.members;
        let after = next.members;
        let slot = before.index_of(address);
        let last = before.len() - 1;
        assert(before[slot] == address);
        assert forall|k: int| 0 <= k < after.len() implies after[k] == (if k == slot {
            before[last]
        } else {
            before[k]
        }) by {}
        assert forall|i: int, j: int|
            0 <= i < after.len() && 0 <= j < after.len() && i != j implies after[i] != after[j] by {}
        assert forall|other: Pubkey| after.contains(other) implies before.contains(other) && other
            != address by {
            let k = after.index_of(other);
            assert(after[k] == other);
            if k == slot {
                assert(before[last] == other);
            } else {
                assert(before[k] == other);
            }
        }
        assert forall|other: Pubkey| before.contains(other) && other != address implies after.contains(
            other,
        ) by {
            let k = before.index_of(other);
            assert(before[k] == other);
            if k == last {
                assert(after[slot] == other);
            } else {
                assert(after[k] == other);
            }
        }
    }
}

/// Adding an address that was not listed and then removing it gives back
/// the state from before: the count is restored and the address is absent.
pub proof fn lemma_add_then_remove_restores(state: GlobalState, caller: Pubkey, address: Pubkey)
    requires
        state.wf(),
        !state.is_whitelisted(address),
    ensures
        state.add(caller, address) matches Ok(added) ==> {
            &&& added.members.len() == state.members.len() + 1
            &&& added.remove(caller, address) == Ok::<GlobalState, VestingError>(state)
        },
{
    if let Ok(added) = state.add(caller, address) {
        lemma_edits_keep_well_formed(state, caller, address);
        let slot = added.members.index_of(address);
        assert(added.members[state.members.len() as int] == address);
        assert(added.members[slot] == address);
        assert(slot == state.members.len());
        assert(swap_remove(added.members, slot) =~= state.members);
    }
}

/// Removing an address after adding it leaves it absent, whether or not it
/// was listed before the two calls.
pub proof fn lemma_add_then_remove_makes_absent(state: GlobalState, caller: Pubkey, address: Pubkey)
    requires
        state.wf(),
    ensures
        state.add(caller, address) matches Ok(added) ==> {
            &&& added.remove(caller, address) matches Ok(removed)
            &&& !removed.is_whitelisted(address)
        },
{
    if let Ok(added) = state.add(caller, address) {
        lemma_add_twice_is_add_once(state, caller, address);
        lemma_edits_keep_well_formed(state, caller, address);
        lemma_remove_keeps_the_others(added, caller, address);
    }
}

} // verus!
