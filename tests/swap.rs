use erc20_ledger::{CallEnv, ERC20Swap, Erc20};

#[test]
fn swap_flips_its_flag() {
    let mut swapper = ERC20Swap::new(false, 9u64);
    assert_eq!(swapper.value(), false);
    swapper.flip();
    assert_eq!(swapper.value(), true);
    assert_eq!(swapper.get(), 9);
}

#[test]
fn swap_reads_balances_of_its_token() {
    let token = Erc20::new(&CallEnv { caller: 5u64 }, 77);
    let swapper = ERC20Swap::new(true, 9u64);
    assert_eq!(swapper.balance_of(&token, 5), 77);
    assert_eq!(swapper.balance_of(&token, 6), 0);
}
