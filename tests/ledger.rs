use erc20_ledger::{CallEnv, Erc20, Erc20Event, Erc20Message, Error};

const A: u64 = 1;
const B: u64 = 2;
const C: u64 = 3;
const D: u64 = 4;

fn env(caller: u64) -> CallEnv<u64> {
    CallEnv { caller }
}

fn sum_of(token: &Erc20<u64>, accounts: &[u64]) -> u128 {
    accounts.iter().map(|a| token.balance_of(*a)).sum()
}

#[test]
fn construction_mints_to_the_caller() {
    let token = Erc20::new(&env(A), 1000);
    assert_eq!(token.total_supply(), 1000);
    assert_eq!(token.balance_of(A), 1000);
    assert_eq!(token.balance_of(B), 0);
    assert_eq!(
        token.emitted_events(),
        &vec![Erc20Event::Transfer { from: None, to: Some(A), value: 1000 }]
    );
}

#[test]
fn documented_scenario() {
    let mut token = Erc20::new(&env(A), 1000);
    assert_eq!(token.transfer(&env(A), B, 300), Ok(()));
    assert_eq!(token.balance_of(A), 700);
    assert_eq!(token.balance_of(B), 300);
    assert_eq!(token.total_supply(), 1000);

    assert_eq!(token.approve(&env(A), C, 100), Ok(()));
    assert_eq!(token.allowance(A, C), 100);

    assert_eq!(token.transfer_from(&env(C), A, D, 60), Ok(()));
    assert_eq!(token.balance_of(A), 640);
    assert_eq!(token.balance_of(D), 60);
    assert_eq!(token.allowance(A, C), 40);

    let events_before = token.emitted_events().clone();
    assert_eq!(token.transfer_from(&env(C), A, D, 50), Err(Error::InsufficientAllowance));
    assert_eq!(token.balance_of(A), 640);
    assert_eq!(token.balance_of(D), 60);
    assert_eq!(token.allowance(A, C), 40);
    assert_eq!(token.emitted_events(), &events_before);
}

#[test]
fn transfer_moves_exactly_value_and_emits_one_event() {
    let mut token = Erc20::new(&env(A), 500);
    let events_before = token.emitted_events().len();
    assert_eq!(token.transfer(&env(A), B, 200), Ok(()));
    assert_eq!(token.balance_of(A), 300);
    assert_eq!(token.balance_of(B), 200);
    assert_eq!(token.total_supply(), 500);
    assert_eq!(token.emitted_events().len(), events_before + 1);
    assert_eq!(
        token.emitted_events().last(),
        Some(&Erc20Event::Transfer { from: Some(A), to: Some(B), value: 200 })
    );
}

#[test]
fn transfer_of_whole_balance_and_of_zero() {
    let mut token = Erc20::new(&env(A), 10);
    assert_eq!(token.transfer(&env(A), B, 10), Ok(()));
    assert_eq!(token.balance_of(A), 0);
    assert_eq!(token.balance_of(B), 10);
    assert_eq!(token.transfer(&env(C), D, 0), Ok(()));
    assert_eq!(token.balance_of(C), 0);
    assert_eq!(token.balance_of(D), 0);
    assert_eq!(token.emitted_events().len(), 3);
}

#[test]
fn transfer_to_self_keeps_balance() {
    let mut token = Erc20::new(&env(A), 100);
    assert_eq!(token.transfer(&env(A), A, 40), Ok(()));
    assert_eq!(token.balance_of(A), 100);
    assert_eq!(
        token.emitted_events().last(),
        Some(&Erc20Event::Transfer { from: Some(A), to: Some(A), value: 40 })
    );
}

#[test]
fn transfer_beyond_balance_is_refused_without_effect() {
    let mut token = Erc20::new(&env(A), 100);
    assert_eq!(token.transfer(&env(A), B, 30), Ok(()));
    let events_before = token.emitted_events().clone();
    assert_eq!(token.transfer(&env(B), C, 31), Err(Error::InsufficientBalance));
    assert_eq!(token.balance_of(B), 30);
    assert_eq!(token.balance_of(C), 0);
    assert_eq!(token.emitted_events(), &events_before);
}

#[test]
fn approve_overwrites_previous_allowance() {
    let mut token = Erc20::new(&env(A), 100);
    assert_eq!(token.approve(&env(A), B, 80), Ok(()));
    assert_eq!(token.approve(&env(A), B, 5), Ok(()));
    assert_eq!(token.allowance(A, B), 5);
    assert_eq!(token.allowance(B, A), 0);
    assert_eq!(
        token.emitted_events().last(),
        Some(&Erc20Event::Approval { owner: A, spender: B, value: 5 })
    );
}

#[test]
fn transfer_from_checks_allowance_before_balance() {
    let mut token = Erc20::new(&env(A), 50);
    // Neither the allowance nor the balance covers 60: the allowance is reported.
    assert_eq!(token.approve(&env(A), C, 10), Ok(()));
    assert_eq!(token.transfer_from(&env(C), A, B, 60), Err(Error::InsufficientAllowance));
    // The allowance covers 60, the balance does not.
    assert_eq!(token.approve(&env(A), C, 100), Ok(()));
    assert_eq!(token.transfer_from(&env(C), A, B, 60), Err(Error::InsufficientBalance));
    assert_eq!(token.allowance(A, C), 100);
    assert_eq!(token.balance_of(A), 50);
    // Both cover it.
    assert_eq!(token.transfer_from(&env(C), A, B, 50), Ok(()));
    assert_eq!(token.allowance(A, C), 50);
    assert_eq!(token.balance_of(A), 0);
    assert_eq!(token.balance_of(B), 50);
    assert_eq!(
        token.emitted_events().last(),
        Some(&Erc20Event::Transfer { from: Some(A), to: Some(B), value: 50 })
    );
}

#[test]
fn transfer_from_without_allowance_is_refused() {
    let mut token = Erc20::new(&env(A), 50);
    assert_eq!(token.transfer_from(&env(B), A, B, 1), Err(Error::InsufficientAllowance));
    assert_eq!(token.balance_of(A), 50);
}

#[test]
fn balances_always_add_up_to_supply() {
    let accounts = [A, B, C, D];
    let mut token = Erc20::new(&env(A), 1_000_000);
    assert_eq!(sum_of(&token, &accounts), 1_000_000);
    let _ = token.transfer(&env(A), B, 250_000);
    let _ = token.transfer(&env(B), C, 100_000);
    let _ = token.transfer(&env(C), D, 200_000);
    let _ = token.approve(&env(B), D, 75_000);
    let _ = token.transfer_from(&env(D), B, A, 70_000);
    let _ = token.transfer(&env(D), D, 1);
    assert_eq!(sum_of(&token, &accounts), token.total_supply());
}

#[test]
fn largest_supply_moves_without_overflow() {
    let mut token = Erc20::new(&env(A), u128::MAX);
    assert_eq!(token.transfer(&env(A), B, u128::MAX - 1), Ok(()));
    assert_eq!(token.transfer(&env(A), B, 1), Ok(()));
    assert_eq!(token.balance_of(B), u128::MAX);
    assert_eq!(token.balance_of(A), 0);
}

#[test]
fn replaying_the_same_calls_gives_the_same_ledger() {
    let calls = vec![
        (A, Erc20Message::Transfer { to: B, value: 40 }),
        (A, Erc20Message::Approve { spender: C, value: 30 }),
        (C, Erc20Message::TransferFrom { from: A, to: D, value: 20 }),
        (B, Erc20Message::Transfer { to: C, value: 41 }),
        (C, Erc20Message::TransferFrom { from: A, to: D, value: 20 }),
    ];
    let run = || {
        let mut token = Erc20::new(&env(A), 100);
        let results: Vec<_> = calls.iter().map(|(c, m)| token.call(&env(*c), *m)).collect();
        (token, results)
    };
    let (first, first_results) = run();
    let (second, second_results) = run();
    assert_eq!(first_results, second_results);
    assert_eq!(
        first_results,
        vec![Ok(()), Ok(()), Ok(()), Err(Error::InsufficientBalance), Err(Error::InsufficientAllowance)]
    );
    assert_eq!(first.emitted_events(), second.emitted_events());
    for a in [A, B, C, D] {
        assert_eq!(first.balance_of(a), second.balance_of(a));
        for s in [A, B, C, D] {
            assert_eq!(first.allowance(a, s), second.allowance(a, s));
        }
    }
    assert_eq!(first.balance_of(A), 40);
    assert_eq!(first.balance_of(D), 20);
}

#[test]
fn byte_identifiers_are_compared_in_full() {
    let a: [u8; 32] = [0x01; 32];
    let mut b: [u8; 32] = [0x01; 32];
    b[31] = 0x02;
    let mut token = Erc20::new(&CallEnv { caller: a }, 10);
    assert_eq!(token.transfer(&CallEnv { caller: a }, b, 4), Ok(()));
    assert_eq!(token.balance_of(a), 6);
    assert_eq!(token.balance_of(b), 4);
}
