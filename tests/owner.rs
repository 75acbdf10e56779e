use erc20_ledger::{CallEnv, Error, Impl, Owner, OwnerMessage, OwnershipTransferred};

const DEFAULT_OWNER: u64 = 1;
const ALICE: u64 = 2;
const BOB: u64 = 3;

fn env(caller: u64) -> CallEnv<u64> {
    CallEnv { caller }
}

#[test]
fn lib_it_works() {
    let default_owner: [u8; 32] = [0x01; 32];
    let alice: [u8; 32] = [0x02; 32];
    let mut owner_test = Owner::new(&CallEnv { caller: default_owner });
    assert_eq!(1, owner_test.emitted_events().len());
    assert_eq!(owner_test.get_owner(), Some(default_owner));
    assert_eq!(owner_test.transfer_ownership(&CallEnv { caller: default_owner }, alice), Ok(()));
    assert_eq!(owner_test.get_owner(), Some(alice));
    assert_eq!(owner_test.renounce_ownership(&CallEnv { caller: alice }), Ok(()));
    assert_eq!(owner_test.get_owner(), None);
}

#[test]
fn ownership_events_record_each_change() {
    let mut guard = Owner::new(&env(DEFAULT_OWNER));
    assert_eq!(guard.transfer_ownership(&env(DEFAULT_OWNER), ALICE), Ok(()));
    assert_eq!(guard.renounce_ownership(&env(ALICE)), Ok(()));
    assert_eq!(
        guard.emitted_events(),
        &vec![
            OwnershipTransferred { previous_owner: None, new_owner: Some(DEFAULT_OWNER) },
            OwnershipTransferred { previous_owner: Some(DEFAULT_OWNER), new_owner: Some(ALICE) },
            OwnershipTransferred { previous_owner: Some(ALICE), new_owner: None },
        ]
    );
}

#[test]
fn only_the_owner_may_hand_over() {
    let mut guard = Owner::new(&env(DEFAULT_OWNER));
    assert_eq!(guard.transfer_ownership(&env(BOB), BOB), Err(Error::NotOwner));
    assert_eq!(guard.renounce_ownership(&env(BOB)), Err(Error::NotOwner));
    assert_eq!(guard.get_owner(), Some(DEFAULT_OWNER));
    assert_eq!(guard.emitted_events().len(), 1);
    assert_eq!(guard.ensure_caller_is_owner(&env(BOB)), Err(Error::NotOwner));
    assert_eq!(guard.ensure_caller_is_owner(&env(DEFAULT_OWNER)), Ok(()));
    assert_eq!(guard.ensure_owner(&DEFAULT_OWNER), Ok(()));
    assert_eq!(guard.ensure_owner(&ALICE), Err(Error::NotOwner));
    assert_eq!(guard.ensure_owner_renounce(), Err(Error::NotOwner));
}

#[test]
fn renounced_ownership_is_terminal() {
    let mut guard = Owner::new(&env(DEFAULT_OWNER));
    assert_eq!(guard.renounce_ownership(&env(DEFAULT_OWNER)), Ok(()));
    assert_eq!(guard.ensure_owner_renounce(), Ok(()));
    for caller in [DEFAULT_OWNER, ALICE, BOB] {
        assert_eq!(guard.transfer_ownership(&env(caller), caller), Err(Error::NotOwner));
        assert_eq!(guard.renounce_ownership(&env(caller)), Err(Error::NotOwner));
        assert_eq!(
            guard.dispatch(caller, OwnerMessage::TransferOwnership { new_owner: ALICE }),
            Err(Error::NotOwner)
        );
    }
    assert_eq!(guard.get_owner(), None);
    assert_eq!(guard.owner(), &None);
    assert_eq!(guard.emitted_events().len(), 2);
}
