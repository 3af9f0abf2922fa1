use vstd::prelude::*;
use crate::error::VestingError;
use crate::pubkey::Pubkey;

verus! {

/// The number of slots of the whitelist.
pub const MAX_ALLOWED_COUNT: usize = 30;

/// What a `GlobalInfo` record means: the admin, the whitelisted principals in
/// scan order, and the switch. Slots past the count are not part of it.
pub struct GlobalState {
    pub admin: Pubkey,
    pub members: Seq<Pubkey>,
    pub active: u64,
}

impl GlobalState {
    /// The whitelist fits its slots and names nobody twice.
    pub open spec fn wf(self) -> bool {
        &&& self.members.len() <= MAX_ALLOWED_COUNT
        &&& self.members.no_duplicates()
    }

    /// Whether `key` is on the whitelist.
    pub open spec fn is_whitelisted(self, key: Pubkey) -> bool {
        self.members.contains(key)
    }

    /// Whether at least one of `candidates` is on the whitelist.
    pub open spec fn any_whitelisted(self, candidates: Seq<Pubkey>) -> bool {
        exists|i: int| 0 <= i < candidates.len() && self.is_whitelisted(#[trigger] candidates[i])
    }

    /// Whether protections are enforced: the switch is exactly 1.
    pub open spec fn is_enforcing(self) -> bool {
        self.active == 1
    }

    /// The state right after initialization by `admin`: protections
    /// enforced, nobody whitelisted.
    pub open spec fn initial(admin: Pubkey) -> GlobalState {
        GlobalState { admin, members: Seq::empty(), active: 1 }
    }

    /// What an update of admin and switch asked for by `caller` gives: only
    /// the admin may ask, and a part that is not given stays as it is.
    pub open spec fn update(
        self,
        caller: Pubkey,
        new_admin: Option<Pubkey>,
        active_state: Option<u64>,
    ) -> Result<GlobalState, VestingError> {
        if caller != self.admin {
            Err(VestingError::InvalidSuperOwner)
        } else {
            Ok(
                GlobalState {
                    admin: if let Some(admin) = new_admin { admin } else { self.admin },
                    members: self.members,
                    active: if let Some(active) = active_state { active } else { self.active },
                },
            )
        }
    }

    /// What adding `address` at the request of `caller` gives. Only the
    /// admin may ask, and only while protections are enforced. An address
    /// that is already listed leaves the state as it is, even when the list
    /// is full; a new one goes behind the others, if a slot is left.
    pub open spec fn add(self, caller: Pubkey, address: Pubkey) -> Result<
        GlobalState,
        VestingError,
    > {
        if caller != self.admin {
            Err(VestingError::InvalidSuperOwner)
        } else if self.active != 1 {
            Err(VestingError::VestingDeactived)
        } else if self.is_whitelisted(address) {
            Ok(self)
        } else if self.members.len() >= MAX_ALLOWED_COUNT {
            Err(VestingError::CapacityExceeded)
        } else {
            Ok(GlobalState { members: self.members.push(address), ..self })
        }
    }

    /// What removing `address` at the request of `caller` gives. Only the
    /// admin may ask, and only while protections are enforced. The last
    /// entry moves into the slot of the removed one, so the order of the
    /// others may change.
    pub open spec fn remove(self, caller: Pubkey, address: Pubkey) -> Result<
        GlobalState,
        VestingError,
    > {
        if caller != self.admin {
            Err(VestingError::InvalidSuperOwner)
        } else if self.active != 1 {
            Err(VestingError::VestingDeactived)
        } else if !self.is_whitelisted(address) {
            Err(VestingError::InvalidWhitelistAddress)
        } else {
            Ok(
                GlobalState {
                    members: swap_remove(self.members, self.members.index_of(address)),
                    ..self
                },
            )
        }
    }
}

/// `members` without the entry at `slot`: the last entry takes its place and
/// the sequence gets shorter by one.
pub open spec fn swap_remove(members: Seq<Pubkey>, slot: int) -> Seq<Pubkey>
    recommends
        0 <= slot < members.len(),
{
    members.update(slot, members.last()).drop_last()
}

/// The persistent record of the guard: the admin, a whitelist of fixed
/// capacity of which the first `whitelisted_count` slots are in use, and the
/// switch (1: protections enforced, 0: everything permitted).
#[derive(Clone, Copy, Debug, PartialEq, Eq)]
pub struct GlobalInfo {
    pub admin: Pubkey,
    pub whitelisted_count: u64,
    pub whitelist: [Pubkey; MAX_ALLOWED_COUNT],
    pub active: u64,
}

impl View for GlobalInfo {
    type V = GlobalState;

    open spec fn view(&self) -> GlobalState {
        GlobalState {
            admin: self.admin,
            members: self.whitelist@.take(self.whitelisted_count as int),
            active: self.active,
        }
    }
}

impl GlobalInfo {
    /// The count is within the capacity and the slots in use are pairwise
    /// different.
    pub open spec fn wf(self) -> bool {
        &&& self.whitelisted_count <= MAX_ALLOWED_COUNT
        &&& self@.wf()
    }

    /// Whether this record is well formed, decided by looking at the slots
    /// in use.
    pub fn is_well_formed(&self) -> (ok: bool)
        ensures
            ok == self.wf(),
    {
        if self.whitelisted_count > MAX_ALLOWED_COUNT as u64 {
            return false;
        }
        let count: usize = self.whitelisted_count as usize;
        let ghost members = self@.members;
        let mut i: usize = 0;
        while i < count
            invariant
                i <= count <= MAX_ALLOWED_COUNT,
                count == self.whitelisted_count,
                members == self@.members,
                forall|a: int, b: int| 0 <= a < b < i ==> members[a] != members[b],
            decreases count - i,
        {
            let mut j: usize = 0;
            while j < i
                invariant
                    j <= i < count <= MAX_ALLOWED_COUNT,
                    count == self.whitelisted_count,
                    members == self@.members,
                    forall|a: int| 0 <= a < j ==> members[a] != members[i as int],
                decreases i - j,
            {
                if self.whitelist[j] == self.whitelist[i] {
                    assert(members[j as int] == members[i as int]);
                    return false;
                }
                j += 1;
            }
            i += 1;
        }
        true
    }

    /// The slot at which `address` stands among the slots in use, or `None`
    /// when it is not on the whitelist.
    pub fn position(&self, address: &Pubkey) -> (slot: Option<usize>)
        requires
            self.wf(),
        ensures
            match slot {
                Some(i) => {
                    &&& self@.is_whitelisted(*address)
                    &&& i < self.whitelisted_count
                    &&& self.whitelist@[i as int] == *address
                    &&& i == self@.members.index_of(*address)
                },
                None => !self@.is_whitelisted(*address),
            },
    {
        let count: usize = self.whitelisted_count as usize;
        let ghost members = self@.members;
        let mut i: usize = 0;
        while i < count
            invariant
                i <= count <= MAX_ALLOWED_COUNT,
                count == self.whitelisted_count,
                members == self@.members,
                members.no_duplicates(),
                forall|a: int| 0 <= a < i ==> members[a] != *address,
            decreases count - i,
        {
            if self.whitelist[i] == *address {
                assert(members[i as int] == *address);
                assert(members.contains(*address));
                return Some(i);
            }
            i += 1;
        }
        None
    }

    /// Whether `key` is on the whitelist.
    pub fn is_whitelisted(&self, key: &Pubkey) -> (found: bool)
        requires
            self.wf(),
        ensures
            found == self@.is_whitelisted(*key),
    {
        self.position(key).is_some()
    }

    /// Whether at least one of `candidates` is on the whitelist. The slots
    /// in use are scanned in order and the first match ends the scan.
    pub fn any_whitelisted(&self, candidates: &[Pubkey]) -> (allowed: bool)
        requires
            self.wf(),
        ensures
            allowed == self@.any_whitelisted(candidates@),
    {
        let count: usize = self.whitelisted_count as usize;
        let ghost members = self@.members;
        let mut slot: usize = 0;
        while slot < count
            invariant
                slot <= count <= MAX_ALLOWED_COUNT,
                count == self.whitelisted_count,
                members == self@.members,
                forall|s: int, c: int|
                    0 <= s < slot && 0 <= c < candidates@.len() ==> members[s] != candidates@[c],
            decreases count - slot,
        {
            let mut c: usize = 0;
            while c < candidates.len()
                invariant
                    slot < count <= MAX_ALLOWED_COUNT,
                    count == self.whitelisted_count,
                    members == self@.members,
                    c <= candidates@.len(),
                    forall|k: int| 0 <= k < c ==> members[slot as int] != candidates@[k],
                decreases candidates@.len() - c,
            {
                if self.whitelist[slot] == candidates[c] {
                    assert(members[slot as int] == candidates@[c as int]);
                    assert(self@.is_whitelisted(candidates@[c as int]));
                    return true;
                }
                c += 1;
            }
            slot += 1;
        }
        assert forall|c: int| 0 <= c < candidates@.len() implies !self@.is_whitelisted(
            #[trigger] candidates@[c],
        ) by {
            if members.contains(candidates@[c]) {
                let s = members.index_of(candidates@[c]);
                assert(members[s] == candidates@[c]);
            }
        }
        false
    }
}

impl Default for GlobalInfo {
    /// A record with no admin yet (the all-zero key), an empty whitelist and
    /// protections enforced.
    fn default() -> (state: GlobalInfo)
        ensures
            state.wf(),
            state.admin.is_zero(),
            state.whitelisted_count == 0,
            state.active == 1,
            forall|i: int| 0 <= i < MAX_ALLOWED_COUNT ==> (#[trigger] state.whitelist@[i]).is_zero(),
    {
        let zero = Pubkey::default();
        let whitelist = [zero; MAX_ALLOWED_COUNT];
        assert(whitelist == vstd::array::spec_array_fill_for_copy_type::<Pubkey, MAX_ALLOWED_COUNT>(zero));
        GlobalInfo { admin: zero, whitelisted_count: 0, whitelist, active: 1 }
    }
}

} // verus!
