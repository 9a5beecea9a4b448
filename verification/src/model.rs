//! The pool as a mathematical object.
//!
//! [`PairView`] is what contracts say a pool is: its fields as unbounded
//! numbers. Every operation of the pool is described here by three
//! functions on that view: `*_fits` says on which inputs the 128-bit
//! arithmetic of the operation stays in range, `*_result` says what the
//! operation answers, and a third gives the view after it.

use vstd::prelude::*;
use crate::account::AccountId;
use crate::math::{floor_sqrt, spec_min, Balance};
use crate::types::{Call, PairError, FEE_DENOMINATOR, FEE_NUMERATOR, MINIMUM_LIQUIDITY, PRICE_SCALE};

verus! {

/// What a pool is in the middle of. Anything but `Idle` holds the lock.
pub enum Phase {
    /// Nothing: the lock is free.
    Idle,
    /// A deposit was accepted; its shares are being minted.
    Mint {
        sender: AccountId,
        amount_0: nat,
        amount_1: nat,
        balance_0: nat,
        balance_1: nat,
        /// All shares there will be once the deposit is settled.
        supply: nat,
        fee_on: bool,
    },
    /// A withdrawal was accepted; its shares are being burned and its tokens
    /// paid out.
    Burn {
        sender: AccountId,
        to: AccountId,
        amount_0: nat,
        amount_1: nat,
        /// All shares there will be once the withdrawal is settled.
        supply: nat,
        fee_on: bool,
    },
    /// A swap was accepted; its output is being paid, and its input awaited.
    Swap { sender: AccountId, to: AccountId, amount_out_0: nat, amount_out_1: nat },
    /// Excess balances are being paid out.
    Skim,
}

/// The state of a pool.
pub struct PairView {
    pub factory: AccountId,
    pub token_0: AccountId,
    pub token_1: AccountId,
    pub price_cumulative_last_0: nat,
    pub price_cumulative_last_1: nat,
    pub k_last: nat,
    pub reserve_0: nat,
    pub reserve_1: nat,
    pub block_timestamp_last: nat,
    pub total_supply: nat,
    pub phase: Phase,
}

/// What a swap paid in of one token: by how much the balance observed
/// exceeds what the reserve would be had nothing come in.
pub open spec fn amount_in(balance: nat, reserve: nat, amount_out: nat) -> nat {
    if balance > reserve - amount_out {
        (balance - (reserve - amount_out)) as nat
    } else {
        0
    }
}

/// A balance less the fee on what was paid in, scaled by `FEE_DENOMINATOR`.
pub open spec fn adjusted(balance: nat, paid: nat) -> int {
    balance * FEE_DENOMINATOR - paid * FEE_NUMERATOR
}

/// The one-element list that asks for `value` of `token` to be sent to `to`.
pub open spec fn transfer(token: AccountId, to: AccountId, value: nat) -> Seq<Call> {
    seq![Call::Transfer { token, to, value: value as Balance }]
}

impl PairView {
    /// The view is that of a pool: its two tokens differ, its numbers fit
    /// their fields, and what it is in the middle of can be settled.
    pub open spec fn wf(self) -> bool {
        &&& self.token_0 != self.token_1
        &&& self.price_cumulative_last_0 <= u128::MAX
        &&& self.price_cumulative_last_1 <= u128::MAX
        &&& self.k_last <= u128::MAX
        &&& self.reserve_0 <= u128::MAX
        &&& self.reserve_1 <= u128::MAX
        &&& self.block_timestamp_last <= u64::MAX
        &&& self.total_supply <= u128::MAX
        &&& match self.phase {
            Phase::Idle => true,
            Phase::Mint { amount_0, amount_1, balance_0, balance_1, supply, fee_on, .. } => {
                &&& amount_0 <= u128::MAX
                &&& amount_1 <= u128::MAX
                &&& balance_0 <= u128::MAX
                &&& balance_1 <= u128::MAX
                &&& supply <= u128::MAX
                &&& fee_on ==> balance_0 * balance_1 <= u128::MAX
            },
            Phase::Burn { amount_0, amount_1, supply, .. } => {
                &&& amount_0 <= u128::MAX
                &&& amount_1 <= u128::MAX
                &&& supply <= u128::MAX
            },
            Phase::Swap { amount_out_0, amount_out_1, .. } => {
                &&& amount_out_0 > 0 || amount_out_1 > 0
                &&& amount_out_0 < self.reserve_0
                &&& amount_out_1 < self.reserve_1
            },
            Phase::Skim => true,
        }
    }

    /// The lock is held.
    pub open spec fn locked(self) -> bool {
        !(self.phase is Idle)
    }

    /// The same pool in another phase.
    pub open spec fn with_phase(self, phase: Phase) -> PairView {
        PairView { phase, ..self }
    }

    /// The same pool with the lock free.
    pub open spec fn released(self) -> PairView {
        self.with_phase(Phase::Idle)
    }

    // ---------------------------------------------------------------------
    // Reserves and cumulative prices
    // ---------------------------------------------------------------------

    /// The cumulative prices advance at `now`: time has passed since the
    /// last update and neither reserve is empty.
    pub open spec fn accrues(self, now: nat) -> bool {
        now != self.block_timestamp_last && self.reserve_0 != 0 && self.reserve_1 != 0
    }

    /// Price of token 0 in token 1, times `PRICE_SCALE`.
    pub open spec fn price_0(self) -> nat {
        (self.reserve_1 * PRICE_SCALE / (self.reserve_0 as int)) as nat
    }

    /// Price of token 1 in token 0, times `PRICE_SCALE`.
    pub open spec fn price_1(self) -> nat {
        (self.reserve_0 * PRICE_SCALE / (self.reserve_1 as int)) as nat
    }

    /// An update at `now` stays in range: time does not run backwards, and
    /// where the cumulative prices advance, the scaled reserves and the new
    /// sums fit in 128 bits.
    pub open spec fn update_fits(self, now: nat) -> bool {
        &&& now >= self.block_timestamp_last
        &&& self.accrues(now) ==> {
            &&& self.reserve_0 * PRICE_SCALE <= u128::MAX
            &&& self.reserve_1 * PRICE_SCALE <= u128::MAX
            &&& self.price_cumulative_last_0 + self.price_0() * (now - self.block_timestamp_last)
                <= u128::MAX
            &&& self.price_cumulative_last_1 + self.price_1() * (now - self.block_timestamp_last)
                <= u128::MAX
        }
    }

    /// The pool after an update at `now` to the balances observed: each
    /// cumulative price has grown by the price times the time passed, the
    /// reserves are the balances, and the time of the last update is `now`.
    pub open spec fn updated(self, balance_0: nat, balance_1: nat, now: nat) -> PairView {
        let elapsed = (now - self.block_timestamp_last) as nat;
        PairView {
            price_cumulative_last_0: if self.accrues(now) {
                self.price_cumulative_last_0 + self.price_0() * elapsed
            } else {
                self.price_cumulative_last_0
            },
            price_cumulative_last_1: if self.accrues(now) {
                self.price_cumulative_last_1 + self.price_1() * elapsed
            } else {
                self.price_cumulative_last_1
            },
            reserve_0: balance_0,
            reserve_1: balance_1,
            block_timestamp_last: now,
            ..self
        }
    }

    // ---------------------------------------------------------------------
    // Protocol fee
    // ---------------------------------------------------------------------

    /// Shares owed to the protocol. With the fee switched on and `k_last`
    /// set, and if the square root of the product of the reserves has grown
    /// since `k_last` was taken, they are the supply times that growth, over
    /// five times the new root plus the old one: as many shares as make one
    /// sixth of the growth the protocol's. Otherwise none are owed.
    pub open spec fn fee_liquidity(self, fee_on: bool) -> nat {
        let root_k = floor_sqrt(self.reserve_0 * self.reserve_1);
        let root_k_last = floor_sqrt(self.k_last);
        if fee_on && self.k_last != 0 && root_k > root_k_last {
            (self.total_supply * (root_k - root_k_last) / ((5 * root_k + root_k_last) as int)) as nat
        } else {
            0
        }
    }

    /// Computing the protocol's shares stays in range.
    pub open spec fn fee_fits(self, fee_on: bool) -> bool {
        let root_k = floor_sqrt(self.reserve_0 * self.reserve_1);
        let root_k_last = floor_sqrt(self.k_last);
        fee_on && self.k_last != 0 ==> {
            &&& self.reserve_0 * self.reserve_1 <= u128::MAX
            &&& root_k > root_k_last ==> self.total_supply * (root_k - root_k_last) <= u128::MAX
            &&& self.total_supply + self.fee_liquidity(fee_on) <= u128::MAX
        }
    }

    /// All shares, those owed to the protocol included.
    pub open spec fn supply_with_fee(self, fee_on: bool) -> nat {
        self.total_supply + self.fee_liquidity(fee_on)
    }

    /// The calls that mint the protocol's shares: one, if any are owed.
    pub open spec fn fee_calls(self, fee_to: Option<AccountId>) -> Seq<Call> {
        if fee_to is Some && self.fee_liquidity(true) > 0 {
            seq![Call::Mint { to: fee_to->0, value: self.fee_liquidity(true) as Balance }]
        } else {
            Seq::empty()
        }
    }

    // ---------------------------------------------------------------------
    // Providing liquidity
    // ---------------------------------------------------------------------

    /// Shares that a deposit earns which brings the balances to `balance_0`
    /// and `balance_1`. The first deposit earns the square root of the
    /// product of the two amounts, less `MINIMUM_LIQUIDITY`; a later one the
    /// smaller of the two amounts' proportions of the reserves, in shares.
    pub open spec fn mint_liquidity(self, balance_0: nat, balance_1: nat, fee_on: bool) -> nat {
        let amount_0 = balance_0 - self.reserve_0;
        let amount_1 = balance_1 - self.reserve_1;
        let supply = self.supply_with_fee(fee_on);
        if supply == 0 {
            let root = floor_sqrt((amount_0 * amount_1) as nat);
            if root > MINIMUM_LIQUIDITY {
                (root - MINIMUM_LIQUIDITY) as nat
            } else {
                0
            }
        } else {
            spec_min(
                amount_0 * supply / (self.reserve_0 as int),
                amount_1 * supply / (self.reserve_1 as int),
            ) as nat
        }
    }

    /// All shares after such a deposit.
    pub open spec fn mint_supply(self, balance_0: nat, balance_1: nat, fee_on: bool) -> nat {
        let supply = self.supply_with_fee(fee_on);
        let liquidity = self.mint_liquidity(balance_0, balance_1, fee_on);
        if supply == 0 {
            (MINIMUM_LIQUIDITY + liquidity) as nat
        } else {
            supply + liquidity
        }
    }

    /// The arithmetic of `mint` stays in range.
    pub open spec fn mint_fits(self, balance_0: nat, balance_1: nat, fee_on: bool) -> bool {
        let amount_0 = balance_0 - self.reserve_0;
        let amount_1 = balance_1 - self.reserve_1;
        let supply = self.supply_with_fee(fee_on);
        self.locked() || {
            &&& balance_0 >= self.reserve_0
            &&& balance_1 >= self.reserve_1
            &&& self.fee_fits(fee_on)
            &&& if supply == 0 {
                amount_0 * amount_1 <= u128::MAX
            } else {
                &&& self.reserve_0 != 0
                &&& self.reserve_1 != 0
                &&& amount_0 * supply <= u128::MAX
                &&& amount_1 * supply <= u128::MAX
            }
            &&& self.mint_liquidity(balance_0, balance_1, fee_on) != 0 ==> {
                &&& self.mint_supply(balance_0, balance_1, fee_on) <= u128::MAX
                &&& fee_on ==> balance_0 * balance_1 <= u128::MAX
            }
        }
    }

    /// What `mint` answers: the shares earned, unless the lock is held or
    /// the deposit earns none.
    pub open spec fn mint_result(self, balance_0: nat, balance_1: nat, fee_on: bool) -> Result<
        nat,
        PairError,
    > {
        if self.locked() {
            Err(PairError::Reentrancy)
        } else if self.mint_liquidity(balance_0, balance_1, fee_on) == 0 {
            Err(PairError::InsufficientLiquidityMinted)
        } else {
            Ok(self.mint_liquidity(balance_0, balance_1, fee_on))
        }
    }

    /// The calls of an accepted deposit: the protocol's shares if any, on
    /// the first deposit the locked shares, then the depositor's.
    pub open spec fn mint_calls(
        self,
        to: AccountId,
        balance_0: nat,
        balance_1: nat,
        fee_to: Option<AccountId>,
    ) -> Seq<Call> {
        let liquidity = self.mint_liquidity(balance_0, balance_1, fee_to is Some);
        self.fee_calls(fee_to) + (if self.supply_with_fee(fee_to is Some) == 0 {
            seq![Call::Mint { to: AccountId::zero(), value: MINIMUM_LIQUIDITY }]
        } else {
            Seq::empty()
        }) + seq![Call::Mint { to, value: liquidity as Balance }]
    }

    /// The pool once a deposit is accepted.
    pub open spec fn mint_begun(
        self,
        sender: AccountId,
        balance_0: nat,
        balance_1: nat,
        fee_on: bool,
    ) -> PairView {
        self.with_phase(
            Phase::Mint {
                sender,
                amount_0: (balance_0 - self.reserve_0) as nat,
                amount_1: (balance_1 - self.reserve_1) as nat,
                balance_0,
                balance_1,
                supply: self.mint_supply(balance_0, balance_1, fee_on),
                fee_on,
            },
        )
    }

    /// The arithmetic of `mint_settle` stays in range.
    pub open spec fn mint_settle_fits(self, now: nat) -> bool {
        self.phase is Mint && self.update_fits(now)
    }

    /// The pool once its deposit is settled: updated to the balances that
    /// the deposit was accepted on, with the new shares counted, and with
    /// `k_last` the product of the new reserves if the fee is switched on.
    pub open spec fn mint_settled(self, now: nat) -> PairView {
        match self.phase {
            Phase::Mint { balance_0, balance_1, supply, fee_on, .. } => PairView {
                total_supply: supply,
                k_last: if fee_on {
                    balance_0 * balance_1
                } else {
                    self.k_last
                },
                phase: Phase::Idle,
                ..self.updated(balance_0, balance_1, now)
            },
            _ => self,
        }
    }

    // ---------------------------------------------------------------------
    // Withdrawing liquidity
    // ---------------------------------------------------------------------

    /// What `liquidity` shares are worth of a balance: their proportion of
    /// all shares, in tokens.
    pub open spec fn burn_amount(self, liquidity: nat, balance: nat, fee_on: bool) -> nat {
        liquidity * balance / self.supply_with_fee(fee_on)
    }

    /// The arithmetic of `burn` stays in range.
    pub open spec fn burn_fits(
        self,
        liquidity: nat,
        balance_0: nat,
        balance_1: nat,
        fee_on: bool,
    ) -> bool {
        self.locked() || {
            &&& self.fee_fits(fee_on)
            &&& self.supply_with_fee(fee_on) != 0
            &&& liquidity * balance_0 <= u128::MAX
            &&& liquidity * balance_1 <= u128::MAX
            &&& self.burn_amount(liquidity, balance_0, fee_on) != 0 && self.burn_amount(
                liquidity,
                balance_1,
                fee_on,
            ) != 0 ==> liquidity <= self.supply_with_fee(fee_on)
        }
    }

    /// What `burn` answers: the two amounts paid out, unless the lock is
    /// held or one of the amounts is nothing.
    pub open spec fn burn_result(
        self,
        liquidity: nat,
        balance_0: nat,
        balance_1: nat,
        fee_on: bool,
    ) -> Result<(nat, nat), PairError> {
        let amount_0 = self.burn_amount(liquidity, balance_0, fee_on);
        let amount_1 = self.burn_amount(liquidity, balance_1, fee_on);
        if self.locked() {
            Err(PairError::Reentrancy)
        } else if amount_0 == 0 || amount_1 == 0 {
            Err(PairError::InsufficientLiquidityBurned)
        } else {
            Ok((amount_0, amount_1))
        }
    }

    /// The calls of an accepted withdrawal: the protocol's shares if any,
    /// the burn of the sender's shares, then the two payments.
    pub open spec fn burn_calls(
        self,
        sender: AccountId,
        to: AccountId,
        liquidity: nat,
        balance_0: nat,
        balance_1: nat,
        fee_to: Option<AccountId>,
    ) -> Seq<Call> {
        self.fee_calls(fee_to) + seq![Call::Burn { from: sender, value: liquidity as Balance }]
            + transfer(self.token_0, to, self.burn_amount(liquidity, balance_0, fee_to is Some))
            + transfer(self.token_1, to, self.burn_amount(liquidity, balance_1, fee_to is Some))
    }

    /// The pool once a withdrawal is accepted.
    pub open spec fn burn_begun(
        self,
        sender: AccountId,
        to: AccountId,
        liquidity: nat,
        balance_0: nat,
        balance_1: nat,
        fee_on: bool,
    ) -> PairView {
        self.with_phase(
            Phase::Burn {
                sender,
                to,
                amount_0: self.burn_amount(liquidity, balance_0, fee_on),
                amount_1: self.burn_amount(liquidity, balance_1, fee_on),
                supply: (self.supply_with_fee(fee_on) - liquidity) as nat,
                fee_on,
            },
        )
    }

    /// The arithmetic of `burn_settle` stays in range.
    pub open spec fn burn_settle_fits(self, balance_0: nat, balance_1: nat, now: nat) -> bool {
        &&& self.phase matches Phase::Burn { fee_on, .. } && (fee_on ==> balance_0 * balance_1
            <= u128::MAX)
        &&& self.update_fits(now)
    }

    /// The pool once its withdrawal is settled: updated to the balances
    /// observed after the payments, with the burned shares gone, and with
    /// `k_last` the product of the new reserves if the fee is switched on.
    pub open spec fn burn_settled(self, balance_0: nat, balance_1: nat, now: nat) -> PairView {
        match self.phase {
            Phase::Burn { supply, fee_on, .. } => PairView {
                total_supply: supply,
                k_last: if fee_on {
                    balance_0 * balance_1
                } else {
                    self.k_last
                },
                phase: Phase::Idle,
                ..self.updated(balance_0, balance_1, now)
            },
            _ => self,
        }
    }

    // ---------------------------------------------------------------------
    // Swapping
    // ---------------------------------------------------------------------

    /// What `swap` answers. A request is turned down, in this order, while
    /// the lock is held, if it asks for nothing, if it asks for all of a
    /// reserve or more, and if it is to pay out to one of the two tokens.
    pub open spec fn swap_result(
        self,
        amount_out_0: nat,
        amount_out_1: nat,
        to: AccountId,
    ) -> Result<(), PairError> {
        if self.locked() {
            Err(PairError::Reentrancy)
        } else if amount_out_0 == 0 && amount_out_1 == 0 {
            Err(PairError::InsufficientOutputAmount)
        } else if amount_out_0 >= self.reserve_0 || amount_out_1 >= self.reserve_1 {
            Err(PairError::InsufficientLiquidity)
        } else if to == self.token_0 || to == self.token_1 {
            Err(PairError::InvalidRecipient)
        } else {
            Ok(())
        }
    }

    /// The calls of an accepted swap: the payment of each amount that is
    /// not nothing, then, if there is any data, the notification.
    pub open spec fn swap_calls(
        self,
        sender: AccountId,
        amount_out_0: Balance,
        amount_out_1: Balance,
        to: AccountId,
        data: Vec<u8>,
    ) -> Seq<Call> {
        (if amount_out_0 > 0 {
            transfer(self.token_0, to, amount_out_0 as nat)
        } else {
            Seq::empty()
        }) + (if amount_out_1 > 0 {
            transfer(self.token_1, to, amount_out_1 as nat)
        } else {
            Seq::empty()
        }) + (if data@.len() > 0 {
            seq![Call::Notify { recipient: to, sender, amount_out_0, amount_out_1, data }]
        } else {
            Seq::empty()
        })
    }

    /// The pool once a swap is accepted.
    pub open spec fn swap_begun(
        self,
        sender: AccountId,
        amount_out_0: nat,
        amount_out_1: nat,
        to: AccountId,
    ) -> PairView {
        self.with_phase(Phase::Swap { sender, to, amount_out_0, amount_out_1 })
    }

    /// What the swap in flight paid in of token 0, given the balance
    /// observed.
    pub open spec fn swap_in_0(self, balance_0: nat) -> nat {
        match self.phase {
            Phase::Swap { amount_out_0, .. } => amount_in(balance_0, self.reserve_0, amount_out_0),
            _ => 0,
        }
    }

    /// What the swap in flight paid in of token 1, given the balance
    /// observed.
    pub open spec fn swap_in_1(self, balance_1: nat) -> nat {
        match self.phase {
            Phase::Swap { amount_out_1, .. } => amount_in(balance_1, self.reserve_1, amount_out_1),
            _ => 0,
        }
    }

    /// The product of the balances observed, each less the fee on what was
    /// paid in, is at least the product of the reserves. Both sides are
    /// scaled by the square of `FEE_DENOMINATOR`.
    pub open spec fn swap_keeps_product(self, balance_0: nat, balance_1: nat) -> bool {
        adjusted(balance_0, self.swap_in_0(balance_0)) * adjusted(
            balance_1,
            self.swap_in_1(balance_1),
        ) >= self.reserve_0 * self.reserve_1 * (FEE_DENOMINATOR * FEE_DENOMINATOR)
    }

    /// What `swap_settle` answers: the two amounts paid in, unless both are
    /// nothing or the product of the reserves, net of the fee, would shrink.
    pub open spec fn swap_settle_result(self, balance_0: nat, balance_1: nat) -> Result<
        (nat, nat),
        PairError,
    > {
        let in_0 = self.swap_in_0(balance_0);
        let in_1 = self.swap_in_1(balance_1);
        if in_0 == 0 && in_1 == 0 {
            Err(PairError::InsufficientInputAmount)
        } else if !self.swap_keeps_product(balance_0, balance_1) {
            Err(PairError::InvariantViolation)
        } else {
            Ok((in_0, in_1))
        }
    }

    /// The arithmetic of `swap_settle` stays in range: a swap is in flight
    /// and, if anything was paid in, the scaled balances, the two products
    /// compared and, if the swap stands, the update fit in 128 bits.
    pub open spec fn swap_settle_fits(self, balance_0: nat, balance_1: nat, now: nat) -> bool {
        let in_0 = self.swap_in_0(balance_0);
        let in_1 = self.swap_in_1(balance_1);
        &&& self.phase is Swap
        &&& in_0 != 0 || in_1 != 0 ==> {
            &&& balance_0 * FEE_DENOMINATOR <= u128::MAX
            &&& balance_1 * FEE_DENOMINATOR <= u128::MAX
            &&& adjusted(balance_0, in_0) * adjusted(balance_1, in_1) <= u128::MAX
            &&& self.reserve_0 * self.reserve_1 * (FEE_DENOMINATOR * FEE_DENOMINATOR) <= u128::MAX
            &&& self.swap_keeps_product(balance_0, balance_1) ==> self.update_fits(now)
        }
    }

    /// The pool once its swap is settled: updated to the balances observed
    /// if the swap stands, unchanged if not, and with the lock free.
    pub open spec fn swap_settled(self, balance_0: nat, balance_1: nat, now: nat) -> PairView {
        if self.swap_settle_result(balance_0, balance_1) is Ok {
            self.updated(balance_0, balance_1, now).released()
        } else {
            self.released()
        }
    }

    // ---------------------------------------------------------------------
    // Skimming and syncing
    // ---------------------------------------------------------------------

    /// The arithmetic of `skim` stays in range: neither balance is below its
    /// reserve.
    pub open spec fn skim_fits(self, balance_0: nat, balance_1: nat) -> bool {
        self.locked() || (balance_0 >= self.reserve_0 && balance_1 >= self.reserve_1)
    }

    /// What `skim`, `sync` and every other entry point answer first: that
    /// the lock is held, if it is.
    pub open spec fn enter_result(self) -> Result<(), PairError> {
        if self.locked() {
            Err(PairError::Reentrancy)
        } else {
            Ok(())
        }
    }

    /// The calls of a skim: the payment of each balance's excess over its
    /// reserve.
    pub open spec fn skim_calls(self, to: AccountId, balance_0: nat, balance_1: nat) -> Seq<Call> {
        transfer(self.token_0, to, (balance_0 - self.reserve_0) as nat) + transfer(
            self.token_1,
            to,
            (balance_1 - self.reserve_1) as nat,
        )
    }

    /// The arithmetic of `sync` stays in range.
    pub open spec fn sync_fits(self, now: nat) -> bool {
        self.locked() || self.update_fits(now)
    }
}

} // verus!
