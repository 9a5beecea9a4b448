//! The pool itself.

use vstd::prelude::*;
use crate::account::AccountId;
use crate::math::{min, sqrt, Balance};
use crate::math::lemma_floor_sqrt_bound;
use crate::laws::lemma_swap_never_shrinks_product;
use crate::model::{PairView, Phase};
use crate::types::{Burn, Call, Mint, PairError, Swap, Sync};
use crate::types::{FEE_DENOMINATOR, FEE_NUMERATOR, MINIMUM_LIQUIDITY, PRICE_SCALE};

verus! {

/// What the pool remembers of the operation in flight. Anything but `Idle`
/// holds the lock.
#[derive(Clone, Copy, Debug, PartialEq, Eq)]
pub enum Pending {
    /// Nothing: the lock is free.
    Idle,
    /// A deposit of `amount_0` and `amount_1`, accepted on the balances
    /// `balance_0` and `balance_1`; once it is settled there will be `supply`
    /// shares.
    Mint {
        sender: AccountId,
        amount_0: Balance,
        amount_1: Balance,
        balance_0: Balance,
        balance_1: Balance,
        supply: Balance,
        fee_on: bool,
    },
    /// A withdrawal that pays `amount_0` and `amount_1` to `to`; once it is
    /// settled there will be `supply` shares.
    Burn {
        sender: AccountId,
        to: AccountId,
        amount_0: Balance,
        amount_1: Balance,
        supply: Balance,
        fee_on: bool,
    },
    /// A swap that pays `amount_out_0` and `amount_out_1` to `to`.
    Swap { sender: AccountId, to: AccountId, amount_out_0: Balance, amount_out_1: Balance },
    /// A skim.
    Skim,
}

impl View for Pending {
    type V = Phase;

    open spec fn view(&self) -> Phase {
        match *self {
            Pending::Idle => Phase::Idle,
            Pending::Mint { sender, amount_0, amount_1, balance_0, balance_1, supply, fee_on } => {
                Phase::Mint {
                    sender,
                    amount_0: amount_0 as nat,
                    amount_1: amount_1 as nat,
                    balance_0: balance_0 as nat,
                    balance_1: balance_1 as nat,
                    supply: supply as nat,
                    fee_on,
                }
            },
            Pending::Burn { sender, to, amount_0, amount_1, supply, fee_on } => Phase::Burn {
                sender,
                to,
                amount_0: amount_0 as nat,
                amount_1: amount_1 as nat,
                supply: supply as nat,
                fee_on,
            },
            Pending::Swap { sender, to, amount_out_0, amount_out_1 } => Phase::Swap {
                sender,
                to,
                amount_out_0: amount_out_0 as nat,
                amount_out_1: amount_out_1 as nat,
            },
            Pending::Skim => Phase::Skim,
        }
    }
}

/// A pool of two tokens.
#[derive(Clone, Copy, Debug, PartialEq, Eq)]
pub struct UniswapV2Pair {
    factory: AccountId,
    token_0: AccountId,
    token_1: AccountId,
    price_cumulative_last_0: u128,
    price_cumulative_last_1: u128,
    k_last: u128,
    reserve_0: Balance,
    reserve_1: Balance,
    block_timestamp_last: u64,
    total_supply: Balance,
    pending: Pending,
}

impl View for UniswapV2Pair {
    type V = PairView;

    closed spec fn view(&self) -> PairView {
        PairView {
            factory: self.factory,
            token_0: self.token_0,
            token_1: self.token_1,
            price_cumulative_last_0: self.price_cumulative_last_0 as nat,
            price_cumulative_last_1: self.price_cumulative_last_1 as nat,
            k_last: self.k_last as nat,
            reserve_0: self.reserve_0 as nat,
            reserve_1: self.reserve_1 as nat,
            block_timestamp_last: self.block_timestamp_last as nat,
            total_supply: self.total_supply as nat,
            phase: self.pending@,
        }
    }
}

impl UniswapV2Pair {
    /// Returns an empty pool of `token_0` and `token_1`: no reserves, no
    /// shares, no prices, the clock at zero and the lock free.
    pub fn new(factory: AccountId, token_0: AccountId, token_1: AccountId) -> (pair: Self)
        requires
            token_0 != token_1,
        ensures
            pair@.wf(),
            pair@ == (PairView {
                factory,
                token_0,
                token_1,
                price_cumulative_last_0: 0,
                price_cumulative_last_1: 0,
                k_last: 0,
                reserve_0: 0,
                reserve_1: 0,
                block_timestamp_last: 0,
                total_supply: 0,
                phase: Phase::Idle,
            }),
    {
        UniswapV2Pair {
            factory,
            token_0,
            token_1,
            price_cumulative_last_0: 0,
            price_cumulative_last_1: 0,
            k_last: 0,
            reserve_0: 0,
            reserve_1: 0,
            block_timestamp_last: 0,
            total_supply: 0,
            pending: Pending::Idle,
        }
    }

    /// Returns the pool that these values describe, as they were read off an
    /// earlier pool by [`Self::get_reserves`] and the other readers, or
    /// nothing if they describe no pool: if the two tokens are the same, if a
    /// swap is pending that asks for nothing or for all of a reserve, or if a
    /// deposit is pending, with the fee switched on, on balances whose
    /// product leaves the range.
    pub fn restore(
        factory: AccountId,
        token_0: AccountId,
        token_1: AccountId,
        price_cumulative_last_0: u128,
        price_cumulative_last_1: u128,
        k_last: u128,
        reserve_0: Balance,
        reserve_1: Balance,
        block_timestamp_last: u64,
        total_supply: Balance,
        pending: Pending,
    ) -> (r: Option<Self>)
        ensures
            ({
                let view = PairView {
                    factory,
                    token_0,
                    token_1,
                    price_cumulative_last_0: price_cumulative_last_0 as nat,
                    price_cumulative_last_1: price_cumulative_last_1 as nat,
                    k_last: k_last as nat,
                    reserve_0: reserve_0 as nat,
                    reserve_1: reserve_1 as nat,
                    block_timestamp_last: block_timestamp_last as nat,
                    total_supply: total_supply as nat,
                    phase: pending@,
                };
                match r {
                    Some(pair) => view.wf() && pair@ == view,
                    None => !view.wf(),
                }
            }),
    {
        if token_0 == token_1 {
            return None;
        }
        let settles = match pending {
            Pending::Mint { balance_0, balance_1, fee_on, .. } => {
                !fee_on || balance_0.checked_mul(balance_1).is_some()
            },
            Pending::Swap { amount_out_0, amount_out_1, .. } => {
                (amount_out_0 > 0 || amount_out_1 > 0) && amount_out_0 < reserve_0 && amount_out_1
                    < reserve_1
            },
            _ => true,
        };
        if !settles {
            return None;
        }
        Some(
            UniswapV2Pair {
                factory,
                token_0,
                token_1,
                price_cumulative_last_0,
                price_cumulative_last_1,
                k_last,
                reserve_0,
                reserve_1,
                block_timestamp_last,
                total_supply,
                pending,
            },
        )
    }

    /// Returns the two reserves and the time of their last update.
    pub fn get_reserves(&self) -> (r: Result<(Balance, Balance, u64), PairError>)
        ensures
            r matches Ok((reserve_0, reserve_1, block_timestamp_last))
            && reserve_0 == self@.reserve_0
            && reserve_1 == self@.reserve_1
            && block_timestamp_last == self@.block_timestamp_last,
    {
        Ok((self.reserve_0, self.reserve_1, self.block_timestamp_last))
    }

    /// Sets the reserves to the balances observed and the time of the last
    /// update to `now`, after adding to each cumulative price the price that
    /// held since the last update times the time passed.
    fn update(&mut self, balance_0: Balance, balance_1: Balance, now: u64)
        requires
            old(self)@.update_fits(now as nat),
        ensures
            final(self)@ == old(self)@.updated(balance_0 as nat, balance_1 as nat, now as nat),
    {
        let elapsed = now.checked_sub(self.block_timestamp_last).expect("underflow");
        if elapsed != 0 && self.reserve_0 != 0 && self.reserve_1 != 0 {
            let price_0 = self.reserve_1.checked_mul(PRICE_SCALE).expect("overflow").checked_div(
                self.reserve_0,
            ).expect("division by zero");
            let price_1 = self.reserve_0.checked_mul(PRICE_SCALE).expect("overflow").checked_div(
                self.reserve_1,
            ).expect("division by zero");
            self.price_cumulative_last_0 = self.price_cumulative_last_0.checked_add(
                price_0.checked_mul(elapsed as u128).expect("overflow"),
            ).expect("overflow");
            self.price_cumulative_last_1 = self.price_cumulative_last_1.checked_add(
                price_1.checked_mul(elapsed as u128).expect("overflow"),
            ).expect("overflow");
        }
        self.reserve_0 = balance_0;
        self.reserve_1 = balance_1;
        self.block_timestamp_last = now;
    }

    /// Sets the reserves to the balances observed, whatever they are.
    pub fn sync(&mut self, balance_0: Balance, balance_1: Balance, now: u64) -> (r: Result<
        Sync,
        PairError,
    >)
        requires
            old(self)@.wf(),
            old(self)@.sync_fits(now as nat),
        ensures
            final(self)@.wf(),
            match r {
                Ok(event) => {
                    &&& old(self)@.enter_result() is Ok
                    &&& final(self)@ == old(self)@.updated(
                        balance_0 as nat,
                        balance_1 as nat,
                        now as nat,
                    )
                    &&& event == (Sync { reserve_0: balance_0, reserve_1: balance_1 })
                },
                Err(e) => old(self)@.enter_result() == Err::<(), PairError>(e) && final(self)@ == old(
                    self,
                )@,
            },
    {
        if self.is_locked() {
            return Err(PairError::Reentrancy);
        }
        self.update(balance_0, balance_1, now);
        Ok(Sync { reserve_0: balance_0, reserve_1: balance_1 })
    }

    /// Returns the shares owed to the protocol, or nothing if computing them
    /// leaves the range. None are owed unless the fee is switched on, `k_last`
    /// is set and the square root of the product of the reserves has grown
    /// since; then the supply times that growth, over five times the new root
    /// plus the old one.
    fn mint_fee(&self, fee_on: bool) -> (fee: Option<Balance>)
        ensures
            fee is Some <==> self@.fee_fits(fee_on),
            fee matches Some(f) ==> f == self@.fee_liquidity(fee_on),
    {
        if fee_on && self.k_last != 0 {
            let k = match self.reserve_0.checked_mul(self.reserve_1) {
                Some(k) => k,
                None => { return None; },
            };
            let root_k = sqrt(k);
            let root_k_last = sqrt(self.k_last);
            if root_k > root_k_last {
                proof {
                    lemma_floor_sqrt_bound(self@.reserve_0 * self@.reserve_1);
                    lemma_floor_sqrt_bound(self@.k_last);
                }
                let numerator = match self.total_supply.checked_mul(root_k - root_k_last) {
                    Some(numerator) => numerator,
                    None => { return None; },
                };
                let fee = numerator / (root_k * 5 + root_k_last);
                match self.total_supply.checked_add(fee) {
                    Some(_) => Some(fee),
                    None => None,
                }
            } else {
                Some(0)
            }
        } else {
            Some(0)
        }
    }

    /// Begins a deposit: the balances observed are `balance_0` and
    /// `balance_1`, and what they exceed the reserves by was paid in. The fee
    /// is switched on if `fee_to` names who collects it.
    ///
    /// The request is turned down while another operation is in flight, and
    /// if the deposit earns no share. Otherwise the pool takes the lock and
    /// returns the shares earned and the calls to make: the mint of the
    /// protocol's shares if any, on the first deposit the mint of
    /// `MINIMUM_LIQUIDITY` shares to the zero account, then the mint of the
    /// shares earned to `to`. Once they are made, [`Self::mint_settle`] ends
    /// the deposit.
    pub fn mint(
        &mut self,
        sender: AccountId,
        to: AccountId,
        balance_0: Balance,
        balance_1: Balance,
        fee_to: Option<AccountId>,
    ) -> (r: Result<(Balance, Vec<Call>), PairError>)
        requires
            old(self)@.wf(),
            old(self)@.mint_fits(balance_0 as nat, balance_1 as nat, fee_to is Some),
        ensures
            final(self)@.wf(),
            match r {
                Ok((liquidity, calls)) => {
                    &&& old(self)@.mint_result(balance_0 as nat, balance_1 as nat, fee_to is Some)
                        == Ok::<nat, PairError>(liquidity as nat)
                    &&& calls@ == old(self)@.mint_calls(
                        to,
                        balance_0 as nat,
                        balance_1 as nat,
                        fee_to,
                    )
                    &&& final(self)@ == old(self)@.mint_begun(
                        sender,
                        balance_0 as nat,
                        balance_1 as nat,
                        fee_to is Some,
                    )
                },
                Err(e) => {
                    &&& old(self)@.mint_result(balance_0 as nat, balance_1 as nat, fee_to is Some)
                        == Err::<nat, PairError>(e)
                    &&& final(self)@ == old(self)@
                },
            },
    {
        if self.is_locked() {
            return Err(PairError::Reentrancy);
        }
        let fee_on = fee_to.is_some();
        let amount_0 = balance_0.checked_sub(self.reserve_0).expect("underflow");
        let amount_1 = balance_1.checked_sub(self.reserve_1).expect("underflow");
        let fee = self.mint_fee(fee_on).expect("overflow");
        let supply = self.total_supply.checked_add(fee).expect("overflow");
        let mut calls: Vec<Call> = Vec::new();
        if fee > 0 {
            calls.push(Call::Mint { to: fee_to.expect("fee without a collector"), value: fee });
        }
        let liquidity: Balance;
        let new_supply: Balance;
        if supply == 0 {
            let root = sqrt(amount_0.checked_mul(amount_1).expect("overflow"));
            if root <= MINIMUM_LIQUIDITY {
                return Err(PairError::InsufficientLiquidityMinted);
            }
            liquidity = root.checked_sub(MINIMUM_LIQUIDITY).expect("underflow");
            new_supply = MINIMUM_LIQUIDITY.checked_add(liquidity).expect("overflow");
            calls.push(Call::Mint { to: AccountId::zero(), value: MINIMUM_LIQUIDITY });
        } else {
            let share_0 = amount_0.checked_mul(supply).expect("overflow").checked_div(
                self.reserve_0,
            ).expect("division by zero");
            let share_1 = amount_1.checked_mul(supply).expect("overflow").checked_div(
                self.reserve_1,
            ).expect("division by zero");
            liquidity = min(share_0, share_1);
            if liquidity == 0 {
                return Err(PairError::InsufficientLiquidityMinted);
            }
            new_supply = supply.checked_add(liquidity).expect("overflow");
        }
        calls.push(Call::Mint { to, value: liquidity });
        self.pending = Pending::Mint {
            sender,
            amount_0,
            amount_1,
            balance_0,
            balance_1,
            supply: new_supply,
            fee_on,
        };
        Ok((liquidity, calls))
    }

    /// Ends the deposit in flight and releases the lock: counts the new
    /// shares, updates the reserves to the balances that the deposit was
    /// accepted on and, if the fee is switched on, sets `k_last` to their
    /// product.
    pub fn mint_settle(&mut self, now: u64) -> (event: Mint)
        requires
            old(self)@.wf(),
            old(self)@.mint_settle_fits(now as nat),
        ensures
            final(self)@.wf(),
            final(self)@ == old(self)@.mint_settled(now as nat),
            old(self)@.phase matches Phase::Mint { sender, amount_0, amount_1, .. }
                && event.sender == sender && event.amount_0 == amount_0 && event.amount_1
                == amount_1,
    {
        let (sender, amount_0, amount_1, balance_0, balance_1, supply, fee_on) =
            match self.pending {
            Pending::Mint { sender, amount_0, amount_1, balance_0, balance_1, supply, fee_on } => (
                sender,
                amount_0,
                amount_1,
                balance_0,
                balance_1,
                supply,
                fee_on,
            ),
            _ => vstd::pervasive::unreached(),
        };
        self.update(balance_0, balance_1, now);
        self.total_supply = supply;
        if fee_on {
            self.k_last = balance_0.checked_mul(balance_1).expect("overflow");
        }
        self.pending = Pending::Idle;
        Mint { sender, amount_0, amount_1 }
    }

    /// Begins the withdrawal of `liquidity` shares of `sender`, given the
    /// balances observed. The fee is switched on if `fee_to` names who
    /// collects it.
    ///
    /// The request is turned down while another operation is in flight, and
    /// if the shares are worth nothing of either token. Otherwise the pool
    /// takes the lock and returns the two amounts that the shares are worth
    /// and the calls to make: the mint of the protocol's shares if any, the
    /// burn of the sender's shares, then the payment of each amount to `to`.
    /// Once they are made, [`Self::burn_settle`] ends the withdrawal.
    pub fn burn(
        &mut self,
        sender: AccountId,
        to: AccountId,
        liquidity: Balance,
        balance_0: Balance,
        balance_1: Balance,
        fee_to: Option<AccountId>,
    ) -> (r: Result<(Balance, Balance, Vec<Call>), PairError>)
        requires
            old(self)@.wf(),
            old(self)@.burn_fits(
                liquidity as nat,
                balance_0 as nat,
                balance_1 as nat,
                fee_to is Some,
            ),
        ensures
            final(self)@.wf(),
            match r {
                Ok((amount_0, amount_1, calls)) => {
                    &&& old(self)@.burn_result(
                        liquidity as nat,
                        balance_0 as nat,
                        balance_1 as nat,
                        fee_to is Some,
                    ) == Ok::<(nat, nat), PairError>((amount_0 as nat, amount_1 as nat))
                    &&& calls@ == old(self)@.burn_calls(
                        sender,
                        to,
                        liquidity as nat,
                        balance_0 as nat,
                        balance_1 as nat,
                        fee_to,
                    )
                    &&& final(self)@ == old(self)@.burn_begun(
                        sender,
                        to,
                        liquidity as nat,
                        balance_0 as nat,
                        balance_1 as nat,
                        fee_to is Some,
                    )
                },
                Err(e) => {
                    &&& old(self)@.burn_result(
                        liquidity as nat,
                        balance_0 as nat,
                        balance_1 as nat,
                        fee_to is Some,
                    ) == Err::<(nat, nat), PairError>(e)
                    &&& final(self)@ == old(self)@
                },
            },
    {
        if self.is_locked() {
            return Err(PairError::Reentrancy);
        }
        let fee_on = fee_to.is_some();
        let fee = self.mint_fee(fee_on).expect("overflow");
        let supply = self.total_supply.checked_add(fee).expect("overflow");
        let amount_0 = liquidity.checked_mul(balance_0).expect("overflow").checked_div(
            supply,
        ).expect("division by zero");
        let amount_1 = liquidity.checked_mul(balance_1).expect("overflow").checked_div(
            supply,
        ).expect("division by zero");
        if amount_0 == 0 || amount_1 == 0 {
            return Err(PairError::InsufficientLiquidityBurned);
        }
        let mut calls: Vec<Call> = Vec::new();
        if fee > 0 {
            calls.push(Call::Mint { to: fee_to.expect("fee without a collector"), value: fee });
        }
        calls.push(Call::Burn { from: sender, value: liquidity });
        calls.push(Call::Transfer { token: self.token_0, to, value: amount_0 });
        calls.push(Call::Transfer { token: self.token_1, to, value: amount_1 });
        self.pending = Pending::Burn {
            sender,
            to,
            amount_0,
            amount_1,
            supply: supply.checked_sub(liquidity).expect("underflow"),
            fee_on,
        };
        Ok((amount_0, amount_1, calls))
    }

    /// Ends the withdrawal in flight, given the balances observed after its
    /// calls were made, and releases the lock: counts the burned shares out,
    /// updates the reserves to the balances and, if the fee is switched on,
    /// sets `k_last` to their product.
    pub fn burn_settle(&mut self, balance_0: Balance, balance_1: Balance, now: u64) -> (event: Burn)
        requires
            old(self)@.wf(),
            old(self)@.burn_settle_fits(balance_0 as nat, balance_1 as nat, now as nat),
        ensures
            final(self)@.wf(),
            final(self)@ == old(self)@.burn_settled(balance_0 as nat, balance_1 as nat, now as nat),
            old(self)@.phase matches Phase::Burn { sender, to, amount_0, amount_1, .. }
                && event.sender == sender && event.to == to && event.amount_0 == amount_0
                && event.amount_1 == amount_1,
    {
        let (sender, to, amount_0, amount_1, supply, fee_on) = match self.pending {
            Pending::Burn { sender, to, amount_0, amount_1, supply, fee_on } => (
                sender,
                to,
                amount_0,
                amount_1,
                supply,
                fee_on,
            ),
            _ => vstd::pervasive::unreached(),
        };
        self.update(balance_0, balance_1, now);
        self.total_supply = supply;
        if fee_on {
            self.k_last = balance_0.checked_mul(balance_1).expect("overflow");
        }
        self.pending = Pending::Idle;
        Burn { sender, to, amount_0, amount_1 }
    }

    /// Begins a skim: what each balance observed exceeds its reserve by is
    /// to be paid to `to`. The reserves stay as they are.
    ///
    /// The request is turned down while another operation is in flight.
    /// Otherwise the pool takes the lock and returns the two payments to
    /// make. Once they are made, [`Self::release`] ends the skim.
    pub fn skim(&mut self, to: AccountId, balance_0: Balance, balance_1: Balance) -> (r: Result<
        Vec<Call>,
        PairError,
    >)
        requires
            old(self)@.wf(),
            old(self)@.skim_fits(balance_0 as nat, balance_1 as nat),
        ensures
            final(self)@.wf(),
            match r {
                Ok(calls) => {
                    &&& old(self)@.enter_result() is Ok
                    &&& calls@ == old(self)@.skim_calls(to, balance_0 as nat, balance_1 as nat)
                    &&& final(self)@ == old(self)@.with_phase(Phase::Skim)
                },
                Err(e) => old(self)@.enter_result() == Err::<(), PairError>(e) && final(self)@ == old(
                    self,
                )@,
            },
    {
        if self.is_locked() {
            return Err(PairError::Reentrancy);
        }
        let amount_0 = balance_0.checked_sub(self.reserve_0).expect("underflow");
        let amount_1 = balance_1.checked_sub(self.reserve_1).expect("underflow");
        let mut calls: Vec<Call> = Vec::new();
        calls.push(Call::Transfer { token: self.token_0, to, value: amount_0 });
        calls.push(Call::Transfer { token: self.token_1, to, value: amount_1 });
        self.pending = Pending::Skim;
        Ok(calls)
    }

    /// Begins a swap that pays `amount_out_0` and `amount_out_1` to `to`.
    ///
    /// The request is turned down, in this order: while another operation is
    /// in flight; if both amounts are nothing; if either amount is all of its
    /// reserve or more; if `to` is one of the pool's two tokens. Otherwise
    /// the pool takes the lock and returns the calls to make: the payment of
    /// each amount that is not nothing, then, if `data` is not empty, the
    /// notification of `to`, which is handed `data`. Once they are made,
    /// [`Self::swap_settle`] ends the swap.
    pub fn swap(
        &mut self,
        sender: AccountId,
        amount_out_0: Balance,
        amount_out_1: Balance,
        to: AccountId,
        data: Vec<u8>,
    ) -> (r: Result<Vec<Call>, PairError>)
        requires
            old(self)@.wf(),
        ensures
            final(self)@.wf(),
            match r {
                Ok(calls) => {
                    &&& old(self)@.swap_result(amount_out_0 as nat, amount_out_1 as nat, to) is Ok
                    &&& calls@ == old(self)@.swap_calls(
                        sender,
                        amount_out_0,
                        amount_out_1,
                        to,
                        data,
                    )
                    &&& final(self)@ == old(self)@.swap_begun(
                        sender,
                        amount_out_0 as nat,
                        amount_out_1 as nat,
                        to,
                    )
                },
                Err(e) => {
                    &&& old(self)@.swap_result(amount_out_0 as nat, amount_out_1 as nat, to)
                        == Err::<(), PairError>(e)
                    &&& final(self)@ == old(self)@
                },
            },
    {
        if self.is_locked() {
            return Err(PairError::Reentrancy);
        }
        if amount_out_0 == 0 && amount_out_1 == 0 {
            return Err(PairError::InsufficientOutputAmount);
        }
        if amount_out_0 >= self.reserve_0 || amount_out_1 >= self.reserve_1 {
            return Err(PairError::InsufficientLiquidity);
        }
        if to == self.token_0 || to == self.token_1 {
            return Err(PairError::InvalidRecipient);
        }
        let mut calls: Vec<Call> = Vec::new();
        if amount_out_0 > 0 {
            calls.push(Call::Transfer { token: self.token_0, to, value: amount_out_0 });
        }
        if amount_out_1 > 0 {
            calls.push(Call::Transfer { token: self.token_1, to, value: amount_out_1 });
        }
        if data.len() > 0 {
            calls.push(Call::Notify { recipient: to, sender, amount_out_0, amount_out_1, data });
        }
        self.pending = Pending::Swap { sender, to, amount_out_0, amount_out_1 };
        Ok(calls)
    }

    /// Ends the swap in flight, given the balances observed after its calls
    /// were made, and releases the lock.
    ///
    /// What came in of each token is by how much its balance exceeds the
    /// reserve less what went out. The swap falls, and leaves the reserves as
    /// they were, if nothing came in, or if the product of the balances, each
    /// less 0.3% of what came in, is below the product of the reserves.
    /// Otherwise the reserves become the balances.
    pub fn swap_settle(&mut self, balance_0: Balance, balance_1: Balance, now: u64) -> (r: Result<
        Swap,
        PairError,
    >)
        requires
            old(self)@.wf(),
            old(self)@.swap_settle_fits(balance_0 as nat, balance_1 as nat, now as nat),
        ensures
            final(self)@.wf(),
            final(self)@ == old(self)@.swap_settled(balance_0 as nat, balance_1 as nat, now as nat),
            match r {
                Ok(event) => {
                    &&& old(self)@.swap_settle_result(balance_0 as nat, balance_1 as nat) == Ok::<
                        (nat, nat),
                        PairError,
                    >((event.amount_in_0 as nat, event.amount_in_1 as nat))
                    &&& old(self)@.phase == (Phase::Swap {
                        sender: event.sender,
                        to: event.to,
                        amount_out_0: event.amount_out_0 as nat,
                        amount_out_1: event.amount_out_1 as nat,
                    })
                    &&& final(self)@.reserve_0 * final(self)@.reserve_1 >= old(self)@.reserve_0 * old(
                        self,
                    )@.reserve_1
                },
                Err(e) => old(self)@.swap_settle_result(balance_0 as nat, balance_1 as nat) == Err::<
                    (nat, nat),
                    PairError,
                >(e),
            },
    {
        let (sender, to, amount_out_0, amount_out_1) = match self.pending {
            Pending::Swap { sender, to, amount_out_0, amount_out_1 } => (
                sender,
                to,
                amount_out_0,
                amount_out_1,
            ),
            _ => vstd::pervasive::unreached(),
        };
        let reserve_0 = self.reserve_0;
        let reserve_1 = self.reserve_1;
        let kept_0 = reserve_0.checked_sub(amount_out_0).expect("underflow");
        let kept_1 = reserve_1.checked_sub(amount_out_1).expect("underflow");
        let amount_in_0 = if balance_0 > kept_0 {
            balance_0.checked_sub(kept_0).expect("underflow")
        } else {
            0
        };
        let amount_in_1 = if balance_1 > kept_1 {
            balance_1.checked_sub(kept_1).expect("underflow")
        } else {
            0
        };
        if amount_in_0 == 0 && amount_in_1 == 0 {
            self.pending = Pending::Idle;
            return Err(PairError::InsufficientInputAmount);
        }
        let adjusted_0 = balance_0.checked_mul(FEE_DENOMINATOR).expect("overflow").checked_sub(
            amount_in_0.checked_mul(FEE_NUMERATOR).expect("overflow"),
        ).expect("underflow");
        let adjusted_1 = balance_1.checked_mul(FEE_DENOMINATOR).expect("overflow").checked_sub(
            amount_in_1.checked_mul(FEE_NUMERATOR).expect("overflow"),
        ).expect("underflow");
        let k_balance = adjusted_0.checked_mul(adjusted_1).expect("overflow");
        proof {
            assert(reserve_0 * reserve_1 <= reserve_0 * reserve_1 * (FEE_DENOMINATOR
                * FEE_DENOMINATOR)) by (nonlinear_arith)
                requires
                    FEE_DENOMINATOR == 1_000,
            ;
        }
        let k_reserve = reserve_0.checked_mul(reserve_1).expect("overflow").checked_mul(
            FEE_DENOMINATOR * FEE_DENOMINATOR,
        ).expect("overflow");
        if k_balance < k_reserve {
            self.pending = Pending::Idle;
            return Err(PairError::InvariantViolation);
        }
        proof {
            lemma_swap_never_shrinks_product(self@, balance_0 as nat, balance_1 as nat, now as nat);
        }
        self.update(balance_0, balance_1, now);
        self.pending = Pending::Idle;
        Ok(Swap { sender, to, amount_in_0, amount_in_1, amount_out_0, amount_out_1 })
    }

    /// Releases the lock and nothing else. This is how a skim ends once its
    /// payments are made, and how any operation ends whose calls failed.
    pub fn release(&mut self)
        requires
            old(self)@.wf(),
        ensures
            final(self)@.wf(),
            final(self)@ == old(self)@.released(),
    {
        self.pending = Pending::Idle;
    }

    // ---------------------------------------------------------------------
    // Range checks
    // ---------------------------------------------------------------------

    /// Tells whether an update at `now` stays in range.
    fn update_fits(&self, now: u64) -> (ok: bool)
        ensures
            ok == self@.update_fits(now as nat),
    {
        if now < self.block_timestamp_last {
            return false;
        }
        let elapsed: u64 = now - self.block_timestamp_last;
        if elapsed != 0 && self.reserve_0 != 0 && self.reserve_1 != 0 {
            let scaled_0 = match self.reserve_0.checked_mul(PRICE_SCALE) {
                Some(scaled) => scaled,
                None => { return false; },
            };
            let scaled_1 = match self.reserve_1.checked_mul(PRICE_SCALE) {
                Some(scaled) => scaled,
                None => { return false; },
            };
            let price_0 = scaled_1 / self.reserve_0;
            let price_1 = scaled_0 / self.reserve_1;
            let grown_0 = match price_0.checked_mul(elapsed as u128) {
                Some(grown) => grown,
                None => { return false; },
            };
            let grown_1 = match price_1.checked_mul(elapsed as u128) {
                Some(grown) => grown,
                None => { return false; },
            };
            self.price_cumulative_last_0.checked_add(grown_0).is_some()
                && self.price_cumulative_last_1.checked_add(grown_1).is_some()
        } else {
            true
        }
    }

    /// Tells whether [`Self::mint`] can be called with these arguments: whether
    /// its arithmetic stays in range.
    pub fn mint_fits(&self, balance_0: Balance, balance_1: Balance, fee_on: bool) -> (ok: bool)
        requires
            self@.wf(),
        ensures
            ok == self@.mint_fits(balance_0 as nat, balance_1 as nat, fee_on),
    {
        if self.is_locked() {
            return true;
        }
        if balance_0 < self.reserve_0 || balance_1 < self.reserve_1 {
            return false;
        }
        let amount_0: Balance = balance_0 - self.reserve_0;
        let amount_1: Balance = balance_1 - self.reserve_1;
        let fee = match self.mint_fee(fee_on) {
            Some(fee) => fee,
            None => { return false; },
        };
        let supply: Balance = self.total_supply + fee;
        let liquidity: Balance;
        if supply == 0 {
            let product = match amount_0.checked_mul(amount_1) {
                Some(product) => product,
                None => { return false; },
            };
            let root = sqrt(product);
            proof {
                lemma_floor_sqrt_bound(product as nat);
            }
            liquidity = if root > MINIMUM_LIQUIDITY {
                root - MINIMUM_LIQUIDITY
            } else {
                0
            };
        } else {
            if self.reserve_0 == 0 || self.reserve_1 == 0 {
                return false;
            }
            let scaled_0 = match amount_0.checked_mul(supply) {
                Some(scaled) => scaled,
                None => { return false; },
            };
            let scaled_1 = match amount_1.checked_mul(supply) {
                Some(scaled) => scaled,
                None => { return false; },
            };
            liquidity = min(scaled_0 / self.reserve_0, scaled_1 / self.reserve_1);
            if liquidity != 0 && supply.checked_add(liquidity).is_none() {
                return false;
            }
        }
        liquidity == 0 || !fee_on || balance_0.checked_mul(balance_1).is_some()
    }

    /// Tells whether [`Self::mint_settle`] can be called at `now`: whether a
    /// deposit is in flight and the update stays in range.
    pub fn mint_settle_fits(&self, now: u64) -> (ok: bool)
        ensures
            ok == self@.mint_settle_fits(now as nat),
    {
        match self.pending {
            Pending::Mint { .. } => self.update_fits(now),
            _ => false,
        }
    }

    /// Tells whether [`Self::burn`] can be called with these arguments: whether
    /// its arithmetic stays in range.
    pub fn burn_fits(
        &self,
        liquidity: Balance,
        balance_0: Balance,
        balance_1: Balance,
        fee_on: bool,
    ) -> (ok: bool)
        requires
            self@.wf(),
        ensures
            ok == self@.burn_fits(liquidity as nat, balance_0 as nat, balance_1 as nat, fee_on),
    {
        if self.is_locked() {
            return true;
        }
        let fee = match self.mint_fee(fee_on) {
            Some(fee) => fee,
            None => { return false; },
        };
        let supply: Balance = self.total_supply + fee;
        if supply == 0 {
            return false;
        }
        let scaled_0 = match liquidity.checked_mul(balance_0) {
            Some(scaled) => scaled,
            None => { return false; },
        };
        let scaled_1 = match liquidity.checked_mul(balance_1) {
            Some(scaled) => scaled,
            None => { return false; },
        };
        scaled_0 / supply == 0 || scaled_1 / supply == 0 || liquidity <= supply
    }

    /// Tells whether [`Self::burn_settle`] can be called with these
    /// arguments: whether a withdrawal is in flight and its arithmetic stays
    /// in range.
    pub fn burn_settle_fits(&self, balance_0: Balance, balance_1: Balance, now: u64) -> (ok: bool)
        ensures
            ok == self@.burn_settle_fits(balance_0 as nat, balance_1 as nat, now as nat),
    {
        match self.pending {
            Pending::Burn { fee_on, .. } => {
                (!fee_on || balance_0.checked_mul(balance_1).is_some()) && self.update_fits(now)
            },
            _ => false,
        }
    }

    /// Tells whether [`Self::swap_settle`] can be called with these
    /// arguments: whether a swap is in flight and its arithmetic stays in
    /// range.
    pub fn swap_settle_fits(&self, balance_0: Balance, balance_1: Balance, now: u64) -> (ok: bool)
        requires
            self@.wf(),
        ensures
            ok == self@.swap_settle_fits(balance_0 as nat, balance_1 as nat, now as nat),
    {
        let (amount_out_0, amount_out_1) = match self.pending {
            Pending::Swap { amount_out_0, amount_out_1, .. } => (amount_out_0, amount_out_1),
            _ => { return false; },
        };
        let kept_0: Balance = self.reserve_0 - amount_out_0;
        let kept_1: Balance = self.reserve_1 - amount_out_1;
        let amount_in_0: Balance = if balance_0 > kept_0 {
            balance_0 - kept_0
        } else {
            0
        };
        let amount_in_1: Balance = if balance_1 > kept_1 {
            balance_1 - kept_1
        } else {
            0
        };
        if amount_in_0 == 0 && amount_in_1 == 0 {
            return true;
        }
        let scaled_0 = match balance_0.checked_mul(FEE_DENOMINATOR) {
            Some(scaled) => scaled,
            None => { return false; },
        };
        let scaled_1 = match balance_1.checked_mul(FEE_DENOMINATOR) {
            Some(scaled) => scaled,
            None => { return false; },
        };
        let adjusted_0: Balance = scaled_0 - amount_in_0 * FEE_NUMERATOR;
        let adjusted_1: Balance = scaled_1 - amount_in_1 * FEE_NUMERATOR;
        let k_balance = match adjusted_0.checked_mul(adjusted_1) {
            Some(k) => k,
            None => { return false; },
        };
        proof {
            assert(self@.reserve_0 * self@.reserve_1 <= self@.reserve_0 * self@.reserve_1 * (
            FEE_DENOMINATOR * FEE_DENOMINATOR)) by (nonlinear_arith)
                requires
                    FEE_DENOMINATOR == 1_000,
            ;
        }
        let k = match self.reserve_0.checked_mul(self.reserve_1) {
            Some(k) => k,
            None => { return false; },
        };
        let k_reserve = match k.checked_mul(FEE_DENOMINATOR * FEE_DENOMINATOR) {
            Some(k) => k,
            None => { return false; },
        };
        k_balance < k_reserve || self.update_fits(now)
    }

    /// Tells whether [`Self::skim`] can be called with these arguments:
    /// whether neither balance is below its reserve.
    pub fn skim_fits(&self, balance_0: Balance, balance_1: Balance) -> (ok: bool)
        ensures
            ok == self@.skim_fits(balance_0 as nat, balance_1 as nat),
    {
        self.is_locked() || (balance_0 >= self.reserve_0 && balance_1 >= self.reserve_1)
    }

    /// Tells whether [`Self::sync`] can be called at `now`: whether the
    /// update stays in range.
    pub fn sync_fits(&self, now: u64) -> (ok: bool)
        ensures
            ok == self@.sync_fits(now as nat),
    {
        self.is_locked() || self.update_fits(now)
    }

    // ---------------------------------------------------------------------
    // Readers
    // ---------------------------------------------------------------------

    /// The account that created the pool.
    pub fn factory(&self) -> (id: AccountId)
        ensures
            id == self@.factory,
    {
        self.factory
    }

    /// The first token of the pool.
    pub fn token_0(&self) -> (id: AccountId)
        ensures
            id == self@.token_0,
    {
        self.token_0
    }

    /// The second token of the pool.
    pub fn token_1(&self) -> (id: AccountId)
        ensures
            id == self@.token_1,
    {
        self.token_1
    }

    /// The sum over time of the price of token 0 in token 1, scaled by
    /// `PRICE_SCALE`.
    pub fn price_cumulative_last_0(&self) -> (sum: u128)
        ensures
            sum == self@.price_cumulative_last_0,
    {
        self.price_cumulative_last_0
    }

    /// The sum over time of the price of token 1 in token 0, scaled by
    /// `PRICE_SCALE`.
    pub fn price_cumulative_last_1(&self) -> (sum: u128)
        ensures
            sum == self@.price_cumulative_last_1,
    {
        self.price_cumulative_last_1
    }

    /// The product of the reserves as it was after the last deposit or
    /// withdrawal made with the fee switched on; zero before the first.
    pub fn k_last(&self) -> (k: u128)
        ensures
            k == self@.k_last,
    {
        self.k_last
    }

    /// What the pool remembers of the operation in flight.
    pub fn pending(&self) -> (pending: Pending)
        ensures
            pending@ == self@.phase,
    {
        self.pending
    }

    /// All liquidity shares there are.
    pub fn total_supply(&self) -> (supply: Balance)
        ensures
            supply == self@.total_supply,
    {
        self.total_supply
    }

    /// Tells whether an operation is in flight.
    pub fn is_locked(&self) -> (locked: bool)
        ensures
            locked == self@.locked(),
    {
        match self.pending {
            Pending::Idle => false,
            _ => true,
        }
    }
}

} // verus!
