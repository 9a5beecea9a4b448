use uniswap_v2_pair::{AccountId, Call, PairError, Pending, Swap, UniswapV2Pair, PRICE_SCALE};

fn swap_id(n: u8) -> AccountId {
    AccountId([n; 32])
}

fn swap_token_0() -> AccountId {
    swap_id(2)
}

fn swap_token_1() -> AccountId {
    swap_id(3)
}

fn swap_alice() -> AccountId {
    swap_id(10)
}

fn swap_bob() -> AccountId {
    swap_id(11)
}

/// A pool with reserves of `reserve_0` and `reserve_1`, last updated at 100.
fn swap_pool(reserve_0: u128, reserve_1: u128) -> UniswapV2Pair {
    UniswapV2Pair::restore(
        swap_id(1),
        swap_token_0(),
        swap_token_1(),
        0,
        0,
        0,
        reserve_0,
        reserve_1,
        100,
        1_000_000,
        Pending::Idle,
    )
    .unwrap()
}

#[test]
fn swap_for_nothing_is_refused() {
    let mut pair = swap_pool(1_000_000, 1_000_000);
    let before = pair;
    assert_eq!(
        pair.swap(swap_alice(), 0, 0, swap_bob(), vec![]),
        Err(PairError::InsufficientOutputAmount)
    );
    assert_eq!(pair, before);
}

#[test]
fn swap_for_a_whole_reserve_is_refused() {
    let mut pair = swap_pool(1_000_000, 2_000_000);
    let before = pair;
    assert_eq!(
        pair.swap(swap_alice(), 1_000_000, 0, swap_bob(), vec![]),
        Err(PairError::InsufficientLiquidity)
    );
    assert_eq!(
        pair.swap(swap_alice(), 0, 2_000_000, swap_bob(), vec![]),
        Err(PairError::InsufficientLiquidity)
    );
    assert_eq!(
        pair.swap(swap_alice(), 1_000_000, 2_000_000, swap_bob(), vec![]),
        Err(PairError::InsufficientLiquidity)
    );
    assert_eq!(pair, before);
    assert!(pair.swap(swap_alice(), 999_999, 1_999_999, swap_bob(), vec![]).is_ok());
}

#[test]
fn swap_for_more_than_a_reserve_is_refused() {
    let mut pair = swap_pool(1_000_000, 2_000_000);
    assert_eq!(
        pair.swap(swap_alice(), 1_000_001, 1, swap_bob(), vec![]),
        Err(PairError::InsufficientLiquidity)
    );
    assert_eq!(
        pair.swap(swap_alice(), 1, u128::MAX, swap_bob(), vec![]),
        Err(PairError::InsufficientLiquidity)
    );
}

#[test]
fn swap_on_an_empty_pool_is_refused() {
    let mut pair = UniswapV2Pair::new(swap_id(1), swap_token_0(), swap_token_1());
    assert_eq!(
        pair.swap(swap_alice(), 1, 0, swap_bob(), vec![]),
        Err(PairError::InsufficientLiquidity)
    );
    assert_eq!(
        pair.swap(swap_alice(), 0, 0, swap_bob(), vec![]),
        Err(PairError::InsufficientOutputAmount)
    );
}

#[test]
fn swap_to_one_of_the_tokens_is_refused() {
    let mut pair = swap_pool(1_000_000, 1_000_000);
    let before = pair;
    assert_eq!(
        pair.swap(swap_alice(), 10, 0, swap_token_0(), vec![]),
        Err(PairError::InvalidRecipient)
    );
    assert_eq!(
        pair.swap(swap_alice(), 10, 0, swap_token_1(), vec![]),
        Err(PairError::InvalidRecipient)
    );
    assert_eq!(pair, before);
}

#[test]
fn swap_checks_run_in_order() {
    let mut pair = swap_pool(1_000_000, 1_000_000);
    // nothing asked comes before the recipient and the reserves
    assert_eq!(
        pair.swap(swap_alice(), 0, 0, swap_token_0(), vec![]),
        Err(PairError::InsufficientOutputAmount)
    );
    // the reserves come before the recipient
    assert_eq!(
        pair.swap(swap_alice(), 1_000_000, 0, swap_token_0(), vec![]),
        Err(PairError::InsufficientLiquidity)
    );
    // the lock comes before everything
    pair.swap(swap_alice(), 1, 0, swap_bob(), vec![]).unwrap();
    assert_eq!(
        pair.swap(swap_alice(), 0, 0, swap_token_0(), vec![]),
        Err(PairError::Reentrancy)
    );
}

#[test]
fn swap_pays_out_before_it_is_paid() {
    let mut pair = swap_pool(1_000_000, 1_000_000);
    let calls = pair.swap(swap_alice(), 0, 996, swap_bob(), vec![]).unwrap();
    assert_eq!(
        calls,
        vec![Call::Transfer { token: swap_token_1(), to: swap_bob(), value: 996 }]
    );
    assert!(pair.is_locked());
    assert_eq!(
        pair.pending(),
        Pending::Swap {
            sender: swap_alice(),
            to: swap_bob(),
            amount_out_0: 0,
            amount_out_1: 996,
        }
    );
    assert_eq!(pair.get_reserves(), Ok((1_000_000, 1_000_000, 100)));

    assert!(pair.swap_settle_fits(1_001_000, 999_004, 200));
    let event = pair.swap_settle(1_001_000, 999_004, 200);
    assert_eq!(
        event,
        Ok(Swap {
            sender: swap_alice(),
            to: swap_bob(),
            amount_in_0: 1000,
            amount_in_1: 0,
            amount_out_0: 0,
            amount_out_1: 996,
        })
    );
    assert!(!pair.is_locked());
    assert_eq!(pair.get_reserves(), Ok((1_001_000, 999_004, 200)));
    assert_eq!(pair.price_cumulative_last_0(), PRICE_SCALE * 100);
    assert_eq!(pair.price_cumulative_last_1(), PRICE_SCALE * 100);
    assert_eq!(pair.total_supply(), 1_000_000);
}

#[test]
fn swap_that_pays_the_fee_short_is_undone() {
    let mut pair = swap_pool(1_000_000, 1_000_000);
    let before = pair;
    pair.swap(swap_alice(), 0, 997, swap_bob(), vec![]).unwrap();
    // 1000 in for 997 out: (1_001_000_000 - 3000) * 999_003_000 < 10^18
    assert!(pair.swap_settle_fits(1_001_000, 999_003, 200));
    assert_eq!(pair.swap_settle(1_001_000, 999_003, 200), Err(PairError::InvariantViolation));
    assert_eq!(pair, before);
    assert_eq!(pair.get_reserves(), Ok((1_000_000, 1_000_000, 100)));
    assert_eq!(pair.price_cumulative_last_0(), 0);
}

#[test]
fn swap_that_is_not_paid_is_undone() {
    let mut pair = swap_pool(1_000_000, 1_000_000);
    let before = pair;
    pair.swap(swap_alice(), 10, 20, swap_bob(), vec![]).unwrap();
    assert!(pair.swap_settle_fits(999_990, 999_980, 200));
    assert_eq!(
        pair.swap_settle(999_990, 999_980, 200),
        Err(PairError::InsufficientInputAmount)
    );
    assert_eq!(pair, before);

    // a balance below what was left counts as nothing paid, not as a debt
    pair.swap(swap_alice(), 10, 20, swap_bob(), vec![]).unwrap();
    assert_eq!(pair.swap_settle(5, 7, 200), Err(PairError::InsufficientInputAmount));
    assert_eq!(pair, before);
}

#[test]
fn swap_may_be_paid_in_both_tokens() {
    let mut pair = swap_pool(1_000_000, 1_000_000);
    pair.swap(swap_alice(), 1000, 0, swap_bob(), vec![]).unwrap();
    // 500 of token 0 come back and 1000 of token 1 come in
    let event = pair.swap_settle(999_500, 1_001_000, 100).unwrap();
    assert_eq!((event.amount_in_0, event.amount_in_1), (500, 1000));
    assert_eq!((event.amount_out_0, event.amount_out_1), (1000, 0));
    assert_eq!(pair.get_reserves(), Ok((999_500, 1_001_000, 100)));
}

#[test]
fn swap_stands_exactly_when_the_product_is_kept() {
    // 1000 out of token 0; the least of token 1 that pays for it is 1005
    let mut pair = swap_pool(1_000_000, 1_000_000);
    pair.swap(swap_alice(), 1000, 0, swap_bob(), vec![]).unwrap();
    assert_eq!(pair.swap_settle(999_000, 1_001_004, 100), Err(PairError::InvariantViolation));
    pair.swap(swap_alice(), 1000, 0, swap_bob(), vec![]).unwrap();
    assert!(pair.swap_settle(999_000, 1_001_005, 100).is_ok());
}

#[test]
fn swap_never_shrinks_the_product_of_the_reserves() {
    let mut pair = swap_pool(1_000_000, 3_000_000);
    let mut paid: u128 = 1;
    while paid < 2_000_000 {
        let (reserve_0, reserve_1, _) = pair.get_reserves().unwrap();
        let out = reserve_1 / 7;
        pair.swap(swap_alice(), 0, out, swap_bob(), vec![]).unwrap();
        let balance_0 = reserve_0 + paid;
        let balance_1 = reserve_1 - out;
        assert!(pair.swap_settle_fits(balance_0, balance_1, 100));
        match pair.swap_settle(balance_0, balance_1, 100) {
            Ok(_) => {
                let adjusted_0 = balance_0 * 1000 - paid * 3;
                let adjusted_1 = balance_1 * 1000;
                assert!(adjusted_0 * adjusted_1 >= reserve_0 * reserve_1 * 1_000_000);
                assert!(balance_0 * balance_1 >= reserve_0 * reserve_1);
                assert_eq!(pair.get_reserves(), Ok((balance_0, balance_1, 100)));
            }
            Err(e) => {
                assert_eq!(e, PairError::InvariantViolation);
                assert_eq!(pair.get_reserves(), Ok((reserve_0, reserve_1, 100)));
            }
        }
        paid = paid * 3 + 1;
    }
}

#[test]
fn swap_without_data_notifies_nobody() {
    let mut pair = swap_pool(1_000_000, 1_000_000);
    let calls = pair.swap(swap_alice(), 10, 20, swap_bob(), vec![]).unwrap();
    assert_eq!(
        calls,
        vec![
            Call::Transfer { token: swap_token_0(), to: swap_bob(), value: 10 },
            Call::Transfer { token: swap_token_1(), to: swap_bob(), value: 20 },
        ]
    );
    assert!(calls.iter().all(|call| !matches!(call, Call::Notify { .. })));
}

#[test]
fn swap_with_data_notifies_the_recipient_once_after_paying() {
    let mut pair = swap_pool(1_000_000, 1_000_000);
    let calls = pair.swap(swap_alice(), 10, 20, swap_bob(), vec![1, 2, 3]).unwrap();
    assert_eq!(
        calls,
        vec![
            Call::Transfer { token: swap_token_0(), to: swap_bob(), value: 10 },
            Call::Transfer { token: swap_token_1(), to: swap_bob(), value: 20 },
            Call::Notify {
                recipient: swap_bob(),
                sender: swap_alice(),
                amount_out_0: 10,
                amount_out_1: 20,
                data: vec![1, 2, 3],
            },
        ]
    );
    let notifications = calls.iter().filter(|call| matches!(call, Call::Notify { .. })).count();
    assert_eq!(notifications, 1);
    // the input is inferred only when the swap is settled, after the calls
    assert!(pair.is_locked());
    assert_eq!(pair.get_reserves(), Ok((1_000_000, 1_000_000, 100)));
}

#[test]
fn swap_with_data_for_one_token_pays_once_and_notifies() {
    let mut pair = swap_pool(1_000_000, 1_000_000);
    let calls = pair.swap(swap_alice(), 0, 20, swap_bob(), vec![0]).unwrap();
    assert_eq!(
        calls,
        vec![
            Call::Transfer { token: swap_token_1(), to: swap_bob(), value: 20 },
            Call::Notify {
                recipient: swap_bob(),
                sender: swap_alice(),
                amount_out_0: 0,
                amount_out_1: 20,
                data: vec![0],
            },
        ]
    );
}

#[test]
fn settling_a_swap_needs_one_in_flight() {
    let pair = swap_pool(1_000_000, 1_000_000);
    assert!(!pair.swap_settle_fits(1_001_000, 999_004, 200));
}

#[test]
fn settling_a_swap_does_not_fit_when_a_product_overflows() {
    let mut pair = swap_pool(1_000_000, 1_000_000);
    pair.swap(swap_alice(), 0, 996, swap_bob(), vec![]).unwrap();
    // a balance times 1000 leaves the range
    assert!(!pair.swap_settle_fits(u128::MAX, 999_004, 200));
    assert!(!pair.swap_settle_fits(1_001_000, u128::MAX / 999, 200));
    // the product of the adjusted balances leaves the range
    assert!(!pair.swap_settle_fits(1 << 100, 999_004, 200));
    // time running backwards matters only if the swap stands
    assert!(!pair.swap_settle_fits(1_001_000, 999_004, 99));
    assert!(pair.swap_settle_fits(1_001_000, 999_003, 99));
    // nothing paid in: nothing is multiplied
    assert!(pair.swap_settle_fits(1_000_000, 999_004, 99));

    // the product of the reserves times a million leaves the range
    let mut large = swap_pool(1 << 60, 1 << 60);
    large.swap(swap_alice(), 0, 5, swap_bob(), vec![]).unwrap();
    assert!(!large.swap_settle_fits((1 << 60) + 10, (1 << 60) - 5, 200));
    assert!(large.swap_settle_fits(1 << 60, (1 << 60) - 5, 200));
}
