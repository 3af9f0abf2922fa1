use aiko_vesting::{
    initialize, transfer_freeze_authority, update_global_state, GlobalInfo, Initialize, LedgerCall,
    Pubkey, TransferAuthority, UpdateGlobalState, VestingError, MAX_ALLOWED_COUNT,
};

fn key(n: u8) -> Pubkey {
    Pubkey::new_from_array([n; 32])
}

fn update(
    state: GlobalInfo,
    caller: Pubkey,
    new_admin: Option<Pubkey>,
    active_state: Option<u64>,
) -> (GlobalInfo, Result<(), VestingError>) {
    let mut ctx = UpdateGlobalState { global_authority: state, admin: caller };
    let r = update_global_state(&mut ctx, new_admin, active_state);
    (ctx.global_authority, r)
}

#[test]
fn keys_are_equal_when_all_bytes_agree() {
    let mut bytes = [5u8; 32];
    assert_eq!(Pubkey::new_from_array(bytes), key(5));
    assert_eq!(key(5).to_bytes(), bytes);
    bytes[31] = 6;
    assert_ne!(Pubkey::new_from_array(bytes), key(5));
    bytes[31] = 5;
    bytes[0] = 6;
    assert_ne!(Pubkey::new_from_array(bytes), key(5));
    assert_eq!(Pubkey::default(), key(0));
}

#[test]
fn default_record_is_empty_and_enforcing() {
    let state = GlobalInfo::default();
    assert_eq!(state.admin, key(0));
    assert_eq!(state.whitelisted_count, 0);
    assert_eq!(state.active, 1);
    assert_eq!(state.whitelist.len(), MAX_ALLOWED_COUNT);
    assert_eq!(MAX_ALLOWED_COUNT, 30);
    for slot in state.whitelist.iter() {
        assert_eq!(*slot, key(0));
    }
    assert!(state.is_well_formed());
}

#[test]
fn initialize_makes_the_caller_admin() {
    let mut stale = GlobalInfo::default();
    stale.whitelisted_count = 2;
    stale.whitelist[0] = key(8);
    stale.whitelist[1] = key(9);
    stale.active = 0;
    let mut ctx = Initialize { global_authority: stale, admin: key(1) };
    assert_eq!(initialize(&mut ctx), Ok(()));
    assert_eq!(ctx.admin, key(1));
    assert_eq!(ctx.global_authority.admin, key(1));
    assert_eq!(ctx.global_authority.active, 1);
    assert_eq!(ctx.global_authority.whitelisted_count, 0);
    assert_eq!(ctx.global_authority.whitelist, [key(0); 30]);
    assert!(!ctx.global_authority.is_whitelisted(&key(8)));
}

#[test]
fn update_replaces_what_is_given() {
    let mut state = GlobalInfo::default();
    state.admin = key(1);
    let (both, r) = update(state, key(1), Some(key(2)), Some(0));
    assert_eq!(r, Ok(()));
    assert_eq!(both.admin, key(2));
    assert_eq!(both.active, 0);

    let (admin_only, r) = update(state, key(1), Some(key(3)), None);
    assert_eq!(r, Ok(()));
    assert_eq!(admin_only.admin, key(3));
    assert_eq!(admin_only.active, 1);

    let (active_only, r) = update(state, key(1), None, Some(7));
    assert_eq!(r, Ok(()));
    assert_eq!(active_only.admin, key(1));
    assert_eq!(active_only.active, 7);

    let (neither, r) = update(state, key(1), None, None);
    assert_eq!(r, Ok(()));
    assert_eq!(neither, state);
}

#[test]
fn update_leaves_the_whitelist() {
    let mut state = GlobalInfo::default();
    state.admin = key(1);
    state.whitelisted_count = 2;
    state.whitelist[0] = key(8);
    state.whitelist[1] = key(9);
    let (after, r) = update(state, key(1), Some(key(2)), Some(0));
    assert_eq!(r, Ok(()));
    assert_eq!(after.whitelisted_count, 2);
    assert_eq!(after.whitelist, state.whitelist);
}

#[test]
fn update_by_a_stranger_is_refused() {
    let mut state = GlobalInfo::default();
    state.admin = key(1);
    let (after, r) = update(state, key(2), Some(key(2)), Some(0));
    assert_eq!(r, Err(VestingError::InvalidSuperOwner));
    assert_eq!(after, state);
}

#[test]
fn the_old_admin_is_a_stranger_after_the_change() {
    let mut state = GlobalInfo::default();
    state.admin = key(1);
    let (after, _) = update(state, key(1), Some(key(2)), None);
    assert_eq!(update(after, key(1), None, Some(0)).1, Err(VestingError::InvalidSuperOwner));
    assert_eq!(update(after, key(2), None, Some(0)).1, Ok(()));
}

#[test]
fn handover_is_one_call() {
    let mut state = GlobalInfo::default();
    state.admin = key(1);
    let ctx = TransferAuthority {
        global_authority: state,
        global_authority_key: key(50),
        admin: key(1),
        vesting_token: key(60),
        new_authority: key(70),
    };
    assert_eq!(
        transfer_freeze_authority(&ctx),
        Ok(vec![LedgerCall::SetFreezeAuthority {
            mint: key(60),
            current_authority: key(50),
            new_authority: key(70),
        }])
    );
}

#[test]
fn handover_works_while_protections_are_off() {
    let mut state = GlobalInfo::default();
    state.admin = key(1);
    state.active = 0;
    let ctx = TransferAuthority {
        global_authority: state,
        global_authority_key: key(50),
        admin: key(1),
        vesting_token: key(60),
        new_authority: key(70),
    };
    assert_eq!(transfer_freeze_authority(&ctx).map(|calls| calls.len()), Ok(1));
}

#[test]
fn handover_by_a_stranger_is_refused() {
    let mut state = GlobalInfo::default();
    state.admin = key(1);
    let ctx = TransferAuthority {
        global_authority: state,
        global_authority_key: key(50),
        admin: key(2),
        vesting_token: key(60),
        new_authority: key(2),
    };
    assert_eq!(transfer_freeze_authority(&ctx), Err(VestingError::InvalidSuperOwner));
}

#[test]
fn each_refusal_has_its_message() {
    assert_eq!(VestingError::Uninitialized.message(), "Uninitialized account");
    assert_eq!(VestingError::InvalidSuperOwner.message(), "Invalid Super Owner");
    assert_eq!(
        VestingError::VestingDeactived.message(),
        "Vesting is deactived. Allowed for all thaw and transfer action."
    );
    assert_eq!(VestingError::InvalidWhitelistAddress.message(), "Invalid Whitelist Address");
    assert_eq!(
        VestingError::NotAllowedApplicant.message(),
        "The Applicant Not Allowed In Whitelist"
    );
    assert_eq!(VestingError::CapacityExceeded.message(), "The Whitelist Is Full");
}
