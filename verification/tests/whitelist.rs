use aiko_vesting::{
    add_to_whitelist, initialize, remove_from_whitelist, AddToWhitelist, GlobalInfo, Initialize,
    Pubkey, RemoveFromWhitelist, VestingError, MAX_ALLOWED_COUNT,
};

fn key(n: u8) -> Pubkey {
    Pubkey::new_from_array([n; 32])
}

fn fresh(admin: Pubkey) -> GlobalInfo {
    let mut ctx = Initialize { global_authority: GlobalInfo::default(), admin };
    assert_eq!(initialize(&mut ctx), Ok(()));
    ctx.global_authority
}

fn add(state: GlobalInfo, caller: Pubkey, address: Pubkey) -> (GlobalInfo, Result<(), VestingError>) {
    let mut ctx = AddToWhitelist { global_authority: state, admin: caller };
    let r = add_to_whitelist(&mut ctx, address);
    assert_eq!(ctx.admin, caller);
    (ctx.global_authority, r)
}

fn remove(
    state: GlobalInfo,
    caller: Pubkey,
    address: Pubkey,
) -> (GlobalInfo, Result<(), VestingError>) {
    let mut ctx = RemoveFromWhitelist { global_authority: state, admin: caller };
    let r = remove_from_whitelist(&mut ctx, address);
    assert_eq!(ctx.admin, caller);
    (ctx.global_authority, r)
}

fn with_members(admin: Pubkey, members: &[u8]) -> GlobalInfo {
    let mut state = fresh(admin);
    for m in members {
        let (next, r) = add(state, admin, key(*m));
        assert_eq!(r, Ok(()));
        state = next;
    }
    state
}

#[test]
fn add_appends_behind_the_others() {
    let admin = key(1);
    let state = with_members(admin, &[10, 11]);
    let (next, r) = add(state, admin, key(12));
    assert_eq!(r, Ok(()));
    assert_eq!(next.whitelisted_count, 3);
    assert_eq!(next.whitelist[0], key(10));
    assert_eq!(next.whitelist[1], key(11));
    assert_eq!(next.whitelist[2], key(12));
    assert_eq!(next.admin, admin);
    assert_eq!(next.active, 1);
    assert!(next.is_well_formed());
}

#[test]
fn add_twice_is_add_once() {
    let admin = key(1);
    let (once, r1) = add(fresh(admin), admin, key(7));
    assert_eq!(r1, Ok(()));
    let (twice, r2) = add(once, admin, key(7));
    assert_eq!(r2, Ok(()));
    assert_eq!(twice, once);
    assert_eq!(twice.whitelisted_count, 1);
}

#[test]
fn add_then_remove_restores_the_count() {
    let admin = key(1);
    let state = with_members(admin, &[10, 11]);
    let (added, r1) = add(state, admin, key(12));
    assert_eq!(r1, Ok(()));
    assert_eq!(added.whitelisted_count, 3);
    let (removed, r2) = remove(added, admin, key(12));
    assert_eq!(r2, Ok(()));
    assert_eq!(removed.whitelisted_count, state.whitelisted_count);
    assert!(!removed.is_whitelisted(&key(12)));
    assert_eq!(removed.position(&key(12)), None);
    assert!(removed.is_whitelisted(&key(10)));
    assert!(removed.is_whitelisted(&key(11)));
}

#[test]
fn add_then_remove_of_a_listed_address_does_not_restore_the_count() {
    let admin = key(1);
    let state = with_members(admin, &[10, 11]);
    let (added, r1) = add(state, admin, key(10));
    assert_eq!(r1, Ok(()));
    assert_eq!(added, state);
    let (removed, r2) = remove(added, admin, key(10));
    assert_eq!(r2, Ok(()));
    assert_eq!(removed.whitelisted_count, 1);
    assert!(!removed.is_whitelisted(&key(10)));
}

#[test]
fn remove_of_an_absent_address_is_refused_and_changes_nothing() {
    let admin = key(1);
    let state = with_members(admin, &[10, 11]);
    let (after, r) = remove(state, admin, key(12));
    assert_eq!(r, Err(VestingError::InvalidWhitelistAddress));
    assert_eq!(after, state);
}

#[test]
fn remove_from_an_empty_whitelist_is_refused() {
    let admin = key(1);
    let state = fresh(admin);
    let (after, r) = remove(state, admin, key(12));
    assert_eq!(r, Err(VestingError::InvalidWhitelistAddress));
    assert_eq!(after, state);
}

#[test]
fn remove_moves_the_last_entry_into_the_gap() {
    let admin = key(1);
    let state = with_members(admin, &[10, 11, 12, 13]);
    let (after, r) = remove(state, admin, key(11));
    assert_eq!(r, Ok(()));
    assert_eq!(after.whitelisted_count, 3);
    assert_eq!(after.whitelist[0], key(10));
    assert_eq!(after.whitelist[1], key(13));
    assert_eq!(after.whitelist[2], key(12));
    // the slot given up keeps what it held
    assert_eq!(after.whitelist[3], key(13));
    assert!(after.is_well_formed());
}

#[test]
fn remove_of_the_last_entry_moves_nothing() {
    let admin = key(1);
    let state = with_members(admin, &[10, 11, 12]);
    let (after, r) = remove(state, admin, key(12));
    assert_eq!(r, Ok(()));
    assert_eq!(after.whitelisted_count, 2);
    assert_eq!(after.whitelist, state.whitelist);
}

#[test]
fn remove_keeps_every_other_member() {
    let admin = key(1);
    let members: Vec<u8> = (10..20).collect();
    let state = with_members(admin, &members);
    let (after, r) = remove(state, admin, key(13));
    assert_eq!(r, Ok(()));
    assert_eq!(after.whitelisted_count, 9);
    for m in members {
        assert_eq!(after.is_whitelisted(&key(m)), m != 13);
    }
    assert!(!after.is_whitelisted(&key(99)));
}

#[test]
fn add_to_a_full_whitelist_is_refused() {
    let admin = key(1);
    let members: Vec<u8> = (100..130).collect();
    let state = with_members(admin, &members);
    assert_eq!(state.whitelisted_count, MAX_ALLOWED_COUNT as u64);
    let (after, r) = add(state, admin, key(7));
    assert_eq!(r, Err(VestingError::CapacityExceeded));
    assert_eq!(after, state);
}

#[test]
fn add_of_a_listed_address_to_a_full_whitelist_is_accepted() {
    let admin = key(1);
    let members: Vec<u8> = (100..130).collect();
    let state = with_members(admin, &members);
    let (after, r) = add(state, admin, key(129));
    assert_eq!(r, Ok(()));
    assert_eq!(after, state);
}

#[test]
fn whitelist_edits_by_a_stranger_are_refused() {
    let admin = key(1);
    let stranger = key(2);
    let state = with_members(admin, &[10]);
    let (after_add, r_add) = add(state, stranger, key(11));
    assert_eq!(r_add, Err(VestingError::InvalidSuperOwner));
    assert_eq!(after_add, state);
    let (after_remove, r_remove) = remove(state, stranger, key(10));
    assert_eq!(r_remove, Err(VestingError::InvalidSuperOwner));
    assert_eq!(after_remove, state);
}

#[test]
fn whitelist_edits_need_protections_enforced() {
    let admin = key(1);
    let mut state = with_members(admin, &[10]);
    state.active = 0;
    let (after_add, r_add) = add(state, admin, key(11));
    assert_eq!(r_add, Err(VestingError::VestingDeactived));
    assert_eq!(after_add, state);
    let (after_remove, r_remove) = remove(state, admin, key(10));
    assert_eq!(r_remove, Err(VestingError::VestingDeactived));
    assert_eq!(after_remove, state);
    state.active = 2;
    assert_eq!(add(state, admin, key(11)).1, Err(VestingError::VestingDeactived));
}

#[test]
fn a_stranger_is_refused_as_such_while_protections_are_off() {
    let admin = key(1);
    let mut state = with_members(admin, &[10]);
    state.active = 0;
    assert_eq!(add(state, key(2), key(11)).1, Err(VestingError::InvalidSuperOwner));
    assert_eq!(remove(state, key(2), key(10)).1, Err(VestingError::InvalidSuperOwner));
}

#[test]
fn position_finds_the_slot() {
    let admin = key(1);
    let state = with_members(admin, &[10, 11, 12]);
    assert_eq!(state.position(&key(10)), Some(0));
    assert_eq!(state.position(&key(12)), Some(2));
    assert_eq!(state.position(&key(13)), None);
}

#[test]
fn stale_slots_are_not_members() {
    let admin = key(1);
    let state = with_members(admin, &[10, 11]);
    let (after, _) = remove(state, admin, key(11));
    assert_eq!(after.whitelist[1], key(11));
    assert!(!after.is_whitelisted(&key(11)));
    assert!(!after.any_whitelisted(&[key(11), key(12)]));
    assert!(after.any_whitelisted(&[key(11), key(10)]));
}

#[test]
fn well_formedness_is_decided() {
    let admin = key(1);
    let mut state = with_members(admin, &[10, 11, 12]);
    assert!(state.is_well_formed());
    state.whitelist[2] = key(10);
    assert!(!state.is_well_formed());
    state.whitelisted_count = 2;
    assert!(state.is_well_formed());
    state.whitelisted_count = 31;
    assert!(!state.is_well_formed());
}
