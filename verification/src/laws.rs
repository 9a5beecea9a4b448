//! What holds of the pool whatever is asked of it.

use vstd::prelude::*;
use crate::account::AccountId;
use crate::math::{floor_sqrt, lemma_floor_sqrt_exists, Balance};
use crate::model::{adjusted, PairView, Phase};
use crate::types::{Call, PairError, MINIMUM_LIQUIDITY};

verus! {

/// A swap that is settled never shrinks the product of the reserves: the
/// product of the balances less the fee on what was paid in is at least the
/// product of the reserves before the swap, and so, all the more, is the
/// product of the reserves after it.
pub proof fn lemma_swap_never_shrinks_product(pair: PairView, balance_0: nat, balance_1: nat, now: nat)
    requires
        pair.wf(),
        pair.phase is Swap,
        pair.swap_settle_result(balance_0, balance_1) is Ok,
    ensures
        adjusted(balance_0, pair.swap_in_0(balance_0)) * adjusted(
            balance_1,
            pair.swap_in_1(balance_1),
        ) >= pair.reserve_0 * pair.reserve_1 * 1_000_000,
        pair.swap_settled(balance_0, balance_1, now).reserve_0 * pair.swap_settled(
            balance_0,
            balance_1,
            now,
        ).reserve_1 * 1_000_000 >= pair.reserve_0 * pair.reserve_1 * (1_000 * 1_000),
        pair.swap_settled(balance_0, balance_1, now).reserve_0 * pair.swap_settled(
            balance_0,
            balance_1,
            now,
        ).reserve_1 >= pair.reserve_0 * pair.reserve_1,
{
    let in_0 = pair.swap_in_0(balance_0);
    let in_1 = pair.swap_in_1(balance_1);
    let adjusted_0 = adjusted(balance_0, in_0);
    let adjusted_1 = adjusted(balance_1, in_1);
    assert(balance_0 * balance_1 * 1_000_000 >= adjusted_0 * adjusted_1) by (nonlinear_arith)
        requires
            0 <= adjusted_0 <= balance_0 * 1_000,
            0 <= adjusted_1 <= balance_1 * 1_000,
    ;
}

/// A swap never empties a reserve: after a swap that is settled, there is
/// something of both tokens.
pub proof fn lemma_swap_never_empties_a_reserve(
    pair: PairView,
    balance_0: nat,
    balance_1: nat,
    now: nat,
)
    requires
        pair.wf(),
        pair.phase is Swap,
        pair.swap_settle_result(balance_0, balance_1) is Ok,
    ensures
        pair.swap_settled(balance_0, balance_1, now).reserve_0 > 0,
        pair.swap_settled(balance_0, balance_1, now).reserve_1 > 0,
{
    lemma_swap_never_shrinks_product(pair, balance_0, balance_1, now);
    assert(balance_0 != 0 && balance_1 != 0) by (nonlinear_arith)
        requires
            balance_0 * balance_1 >= pair.reserve_0 * pair.reserve_1,
            pair.reserve_0 > 0,
            pair.reserve_1 > 0,
    ;
}

/// While the lock is held, every entry point answers `Reentrancy`, whatever
/// it is asked.
pub proof fn lemma_locked_pool_turns_every_request_down(
    pair: PairView,
    liquidity: nat,
    amount_out_0: nat,
    amount_out_1: nat,
    to: AccountId,
    balance_0: nat,
    balance_1: nat,
    fee_on: bool,
)
    requires
        pair.locked(),
    ensures
        pair.mint_result(balance_0, balance_1, fee_on) == Err::<nat, PairError>(
            PairError::Reentrancy,
        ),
        pair.burn_result(liquidity, balance_0, balance_1, fee_on) == Err::<(nat, nat), PairError>(
            PairError::Reentrancy,
        ),
        pair.swap_result(amount_out_0, amount_out_1, to) == Err::<(), PairError>(
            PairError::Reentrancy,
        ),
        pair.enter_result() == Err::<(), PairError>(PairError::Reentrancy),
{
}

/// Every accepted request takes the lock, and taking it changes nothing
/// else: the reserves, the prices, the shares and `k_last` are those of the
/// pool before, and releasing the lock gives that pool back.
pub proof fn lemma_accepted_request_only_takes_the_lock(
    pair: PairView,
    sender: AccountId,
    to: AccountId,
    liquidity: nat,
    amount_out_0: nat,
    amount_out_1: nat,
    balance_0: nat,
    balance_1: nat,
    fee_on: bool,
)
    requires
        !pair.locked(),
    ensures
        pair.mint_begun(sender, balance_0, balance_1, fee_on).locked(),
        pair.mint_begun(sender, balance_0, balance_1, fee_on).released() == pair,
        pair.burn_begun(sender, to, liquidity, balance_0, balance_1, fee_on).locked(),
        pair.burn_begun(sender, to, liquidity, balance_0, balance_1, fee_on).released() == pair,
        pair.swap_begun(sender, amount_out_0, amount_out_1, to).locked(),
        pair.swap_begun(sender, amount_out_0, amount_out_1, to).released() == pair,
        pair.with_phase(Phase::Skim).locked(),
        pair.with_phase(Phase::Skim).released() == pair,
{
}

/// A swap that falls leaves no trace: once it is settled, the pool is the
/// one that the swap was asked of.
pub proof fn lemma_fallen_swap_leaves_no_trace(
    pair: PairView,
    sender: AccountId,
    amount_out_0: nat,
    amount_out_1: nat,
    to: AccountId,
    balance_0: nat,
    balance_1: nat,
    now: nat,
)
    requires
        !pair.locked(),
        pair.swap_begun(sender, amount_out_0, amount_out_1, to).swap_settle_result(
            balance_0,
            balance_1,
        ) is Err,
    ensures
        pair.swap_begun(sender, amount_out_0, amount_out_1, to).swap_settled(
            balance_0,
            balance_1,
            now,
        ) == pair,
{
}

/// A swap that asks for all of a reserve is turned down for want of
/// liquidity, unless it is turned down before that: because the lock is held,
/// or because it asks for nothing at all.
pub proof fn lemma_whole_reserve_is_refused(
    pair: PairView,
    amount_out_0: nat,
    amount_out_1: nat,
    to: AccountId,
)
    requires
        !pair.locked(),
        amount_out_0 != 0 || amount_out_1 != 0,
        amount_out_0 == pair.reserve_0 || amount_out_1 == pair.reserve_1,
    ensures
        pair.swap_result(amount_out_0, amount_out_1, to) == Err::<(), PairError>(
            PairError::InsufficientLiquidity,
        ),
{
}

/// A swap without data asks for no notification. A swap with data asks for
/// exactly one: it is the last call, it goes to the recipient of the swap and
/// carries the sender, both amounts and the data, and every call before it
/// is a payment.
pub proof fn lemma_swap_notifies_once_after_paying(
    pair: PairView,
    sender: AccountId,
    amount_out_0: Balance,
    amount_out_1: Balance,
    to: AccountId,
    data: Vec<u8>,
)
    ensures
        ({
            let calls = pair.swap_calls(sender, amount_out_0, amount_out_1, to, data);
            let last = calls.len() - 1;
            if data@.len() == 0 {
                forall|i: int| 0 <= i < calls.len() ==> calls[i] is Transfer
            } else {
                &&& calls.len() >= 1
                &&& calls[last] == (Call::Notify {
                    recipient: to,
                    sender,
                    amount_out_0,
                    amount_out_1,
                    data,
                })
                &&& forall|i: int| 0 <= i < last ==> calls[i] is Transfer
            }
        }),
{
}

/// The calls of a swap pay out exactly what was asked for: nothing of a
/// token of which nothing was asked, and else the amount asked, once, of the
/// pool's own token, to the recipient.
pub proof fn lemma_swap_pays_what_was_asked(
    pair: PairView,
    sender: AccountId,
    amount_out_0: Balance,
    amount_out_1: Balance,
    to: AccountId,
    data: Vec<u8>,
)
    ensures
        ({
            let calls = pair.swap_calls(sender, amount_out_0, amount_out_1, to, data);
            &&& calls.len() == (if amount_out_0 > 0 { 1int } else { 0 })
                + (if amount_out_1 > 0 { 1int } else { 0 })
                + (if data@.len() > 0 { 1int } else { 0 })
            &&& amount_out_0 > 0 ==> calls[0] == (Call::Transfer {
                token: pair.token_0,
                to,
                value: amount_out_0,
            })
            &&& amount_out_1 > 0 ==> calls[if amount_out_0 > 0 { 1int } else { 0 }]
                == (Call::Transfer { token: pair.token_1, to, value: amount_out_1 })
        }),
{
}

/// The cumulative prices never decrease, and an update at the time of the
/// last one leaves them as they are.
pub proof fn lemma_cumulative_prices_never_decrease(
    pair: PairView,
    balance_0: nat,
    balance_1: nat,
    now: nat,
)
    requires
        now >= pair.block_timestamp_last,
    ensures
        pair.updated(balance_0, balance_1, now).price_cumulative_last_0
            >= pair.price_cumulative_last_0,
        pair.updated(balance_0, balance_1, now).price_cumulative_last_1
            >= pair.price_cumulative_last_1,
        now == pair.block_timestamp_last ==> pair.updated(
            balance_0,
            balance_1,
            now,
        ).price_cumulative_last_0 == pair.price_cumulative_last_0 && pair.updated(
            balance_0,
            balance_1,
            now,
        ).price_cumulative_last_1 == pair.price_cumulative_last_1,
{
    let elapsed = (now - pair.block_timestamp_last) as nat;
    assert(pair.price_0() * elapsed >= 0) by (nonlinear_arith)
        requires
            pair.price_0() >= 0,
            elapsed >= 0,
    ;
    assert(pair.price_1() * elapsed >= 0) by (nonlinear_arith)
        requires
            pair.price_1() >= 0,
            elapsed >= 0,
    ;
}

/// No operation changes the pool's factory or either of its tokens.
pub proof fn lemma_tokens_never_change(
    pair: PairView,
    sender: AccountId,
    to: AccountId,
    liquidity: nat,
    amount_out_0: nat,
    amount_out_1: nat,
    balance_0: nat,
    balance_1: nat,
    fee_on: bool,
    now: nat,
    phase: Phase,
)
    ensures
        same_tokens(pair, pair.with_phase(phase)),
        same_tokens(pair, pair.updated(balance_0, balance_1, now)),
        same_tokens(pair, pair.mint_begun(sender, balance_0, balance_1, fee_on)),
        same_tokens(pair, pair.mint_settled(now)),
        same_tokens(pair, pair.burn_begun(sender, to, liquidity, balance_0, balance_1, fee_on)),
        same_tokens(pair, pair.burn_settled(balance_0, balance_1, now)),
        same_tokens(pair, pair.swap_begun(sender, amount_out_0, amount_out_1, to)),
        same_tokens(pair, pair.swap_settled(balance_0, balance_1, now)),
{
}

/// Two views are of pools with the same factory and the same two tokens.
pub open spec fn same_tokens(a: PairView, b: PairView) -> bool {
    a.factory == b.factory && a.token_0 == b.token_0 && a.token_1 == b.token_1
}

/// The pool after the withdrawal of `liquidity` shares that was accepted on
/// the balances given and settled, at `now`, on those balances less what the
/// withdrawal paid out.
pub open spec fn withdrawn(
    pair: PairView,
    sender: AccountId,
    to: AccountId,
    liquidity: nat,
    balance_0: nat,
    balance_1: nat,
    fee_on: bool,
    now: nat,
) -> PairView {
    pair.burn_begun(sender, to, liquidity, balance_0, balance_1, fee_on).burn_settled(
        (balance_0 - pair.burn_amount(liquidity, balance_0, fee_on)) as nat,
        (balance_1 - pair.burn_amount(liquidity, balance_1, fee_on)) as nat,
        now,
    )
}

/// The pool after the deposit that was accepted on the balances given and
/// settled at `now`.
pub open spec fn provided(
    pair: PairView,
    sender: AccountId,
    balance_0: nat,
    balance_1: nat,
    fee_on: bool,
    now: nat,
) -> PairView {
    pair.mint_begun(sender, balance_0, balance_1, fee_on).mint_settled(now)
}

/// A withdrawal followed at once by the deposit of what it paid out brings
/// the reserves back: where both are accepted, the reserves end as the
/// balances that the withdrawal was made on, which for a pool in step with
/// its balances are the reserves it began with. What is lost is lost to
/// rounding: unless every share was withdrawn, the deposit earns no more
/// shares than were withdrawn, and it earns the protocol nothing.
pub proof fn lemma_withdraw_then_provide_restores_reserves(
    pair: PairView,
    sender: AccountId,
    to: AccountId,
    liquidity: nat,
    balance_0: nat,
    balance_1: nat,
    fee_on: bool,
    withdrawn_at: nat,
    provided_at: nat,
)
    requires
        pair.wf(),
        pair.burn_fits(liquidity, balance_0, balance_1, fee_on),
        pair.burn_result(liquidity, balance_0, balance_1, fee_on) is Ok,
        withdrawn(
            pair,
            sender,
            to,
            liquidity,
            balance_0,
            balance_1,
            fee_on,
            withdrawn_at,
        ).mint_fits(balance_0, balance_1, fee_on),
        withdrawn(
            pair,
            sender,
            to,
            liquidity,
            balance_0,
            balance_1,
            fee_on,
            withdrawn_at,
        ).mint_result(balance_0, balance_1, fee_on) is Ok,
    ensures
        ({
            let between = withdrawn(
                pair,
                sender,
                to,
                liquidity,
                balance_0,
                balance_1,
                fee_on,
                withdrawn_at,
            );
            let after = provided(between, to, balance_0, balance_1, fee_on, provided_at);
            &&& after.reserve_0 == balance_0
            &&& after.reserve_1 == balance_1
            &&& balance_0 == pair.reserve_0 && balance_1 == pair.reserve_1 ==> after.reserve_0
                == pair.reserve_0 && after.reserve_1 == pair.reserve_1
            &&& between.fee_liquidity(fee_on) == 0
            &&& between.total_supply != 0 ==> between.mint_liquidity(balance_0, balance_1, fee_on)
                <= liquidity && after.total_supply <= pair.supply_with_fee(fee_on)
        }),
{
    let supply = pair.supply_with_fee(fee_on);
    lemma_share_of_balance(liquidity, balance_0, supply);
    lemma_share_of_balance(liquidity, balance_1, supply);
    if liquidity != supply {
        lemma_share_comes_back_rounded_down(liquidity, balance_0, supply);
        lemma_share_comes_back_rounded_down(liquidity, balance_1, supply);
    }
}

/// A share of a balance is not more than the balance.
proof fn lemma_share_of_balance(liquidity: nat, balance: nat, supply: nat)
    requires
        0 < supply,
        liquidity <= supply,
    ensures
        liquidity * balance / supply <= balance,
        (liquidity * balance / supply) * supply <= liquidity * balance,
{
    let product = liquidity * balance;
    assert(product <= supply * balance) by (nonlinear_arith)
        requires
            liquidity <= supply,
            product == liquidity * balance,
    ;
    assert(product / supply <= balance && (product / supply) * supply <= product)
        by (nonlinear_arith)
        requires
            0 < supply,
            0 <= product <= supply * balance,
    ;
}

/// The shares that buy back the tokens that `liquidity` shares were worth
/// are at most `liquidity`.
proof fn lemma_share_comes_back_rounded_down(liquidity: nat, balance: nat, supply: nat)
    requires
        0 < supply,
        liquidity < supply,
        liquidity * balance / supply < balance,
    ensures
        ({
            let amount = liquidity * balance / supply;
            amount * ((supply - liquidity) as nat) / ((balance - amount) as nat) <= liquidity
        }),
{
    let amount = liquidity * balance / supply;
    let left = (supply - liquidity) as nat;
    let rest = (balance - amount) as nat;
    lemma_share_of_balance(liquidity, balance, supply);
    assert(amount * left <= liquidity * rest) by (nonlinear_arith)
        requires
            amount * supply <= liquidity * balance,
            left == supply - liquidity,
            rest == balance - amount,
    ;
    assert(amount * left / rest <= liquidity) by (nonlinear_arith)
        requires
            0 < rest,
            0 <= amount * left <= liquidity * rest,
    ;
}

/// There are no shares exactly if both reserves are empty.
pub open spec fn shares_match_reserves(pair: PairView) -> bool {
    pair.total_supply == 0 <==> pair.reserve_0 == 0 && pair.reserve_1 == 0
}

/// A deposit keeps shares and reserves in step: if there were no shares
/// exactly if both reserves were empty, that is so after the deposit too.
/// The first deposit leaves more than `MINIMUM_LIQUIDITY` shares.
pub proof fn lemma_deposit_keeps_shares_and_reserves_in_step(
    pair: PairView,
    sender: AccountId,
    balance_0: nat,
    balance_1: nat,
    fee_on: bool,
    now: nat,
)
    requires
        pair.wf(),
        shares_match_reserves(pair),
        pair.mint_fits(balance_0, balance_1, fee_on),
        pair.mint_result(balance_0, balance_1, fee_on) is Ok,
    ensures
        shares_match_reserves(provided(pair, sender, balance_0, balance_1, fee_on, now)),
        pair.total_supply == 0 ==> provided(
            pair,
            sender,
            balance_0,
            balance_1,
            fee_on,
            now,
        ).total_supply > MINIMUM_LIQUIDITY,
{
    let amount_0 = (balance_0 - pair.reserve_0) as nat;
    let amount_1 = (balance_1 - pair.reserve_1) as nat;
    if pair.supply_with_fee(fee_on) == 0 {
        let root = floor_sqrt(amount_0 * amount_1);
        lemma_floor_sqrt_exists(amount_0 * amount_1);
        assert(amount_0 != 0 && amount_1 != 0) by (nonlinear_arith)
            requires
                root * root <= amount_0 * amount_1,
                root > 0,
        ;
    }
}

/// A withdrawal keeps shares and reserves in step, where the balances
/// observed after it are those before it less what it paid out.
pub proof fn lemma_withdrawal_keeps_shares_and_reserves_in_step(
    pair: PairView,
    sender: AccountId,
    to: AccountId,
    liquidity: nat,
    balance_0: nat,
    balance_1: nat,
    fee_on: bool,
    now: nat,
)
    requires
        pair.wf(),
        pair.burn_fits(liquidity, balance_0, balance_1, fee_on),
        pair.burn_result(liquidity, balance_0, balance_1, fee_on) is Ok,
    ensures
        shares_match_reserves(
            withdrawn(pair, sender, to, liquidity, balance_0, balance_1, fee_on, now),
        ),
{
    let supply = pair.supply_with_fee(fee_on);
    lemma_share_of_balance(liquidity, balance_0, supply);
    lemma_share_of_balance(liquidity, balance_1, supply);
    if liquidity == supply {
        assert(supply * balance_0 / supply == balance_0) by (nonlinear_arith)
            requires
                supply > 0,
        ;
        assert(supply * balance_1 / supply == balance_1) by (nonlinear_arith)
            requires
                supply > 0,
        ;
    } else {
        assert(liquidity * balance_0 / supply < balance_0) by (nonlinear_arith)
            requires
                0 < supply,
                liquidity < supply,
                liquidity * balance_0 / supply > 0,
        ;
    }
}

/// A swap keeps shares and reserves in step.
pub proof fn lemma_swap_keeps_shares_and_reserves_in_step(
    pair: PairView,
    balance_0: nat,
    balance_1: nat,
    now: nat,
)
    requires
        pair.wf(),
        pair.phase is Swap,
        shares_match_reserves(pair),
    ensures
        shares_match_reserves(pair.swap_settled(balance_0, balance_1, now)),
{
    if pair.swap_settle_result(balance_0, balance_1) is Ok {
        lemma_swap_never_empties_a_reserve(pair, balance_0, balance_1, now);
    }
}

} // verus!
