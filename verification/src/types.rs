//! Plain data that crosses the engine's boundary: amounts, faults, the calls
//! that the engine asks its host to make, and the events it reports.

use vstd::prelude::*;
use crate::account::AccountId;
use crate::math::Balance;

verus! {

/// Shares that the first deposit locks away for good, so that the price of a
/// share can never be driven to nothing by withdrawing all of them.
pub const MINIMUM_LIQUIDITY: Balance = 1_000;

/// Scale of the fixed-point prices that the cumulative prices add up: a price
/// is stored as the ratio of the reserves times 2^64, that is with 64 binary
/// places after the point, in a 128-bit word.
pub const PRICE_SCALE: u128 = 0x1_0000_0000_0000_0000;

/// The trading fee is `FEE_NUMERATOR / FEE_DENOMINATOR` of what a swap pays in.
pub const FEE_NUMERATOR: Balance = 3;

/// See [`FEE_NUMERATOR`].
pub const FEE_DENOMINATOR: Balance = 1_000;

/// Why the pool turned a request down. The pool's state is then what it was
/// before the request, but for the lock, which is free.
#[derive(Clone, Copy, Debug, PartialEq, Eq, Structural)]
pub enum PairError {
    /// A swap paid nothing in.
    InsufficientInputAmount,
    /// A swap asked for nothing.
    InsufficientOutputAmount,
    /// A swap asked for a whole reserve, or more.
    InsufficientLiquidity,
    /// A deposit was too small to be worth a share.
    InsufficientLiquidityMinted,
    /// A withdrawal was too small to be worth a token of each kind.
    InsufficientLiquidityBurned,
    /// A swap was to pay out to one of the pool's own two tokens.
    InvalidRecipient,
    /// A swap would have left the product of the reserves, net of the fee,
    /// smaller than it was.
    InvariantViolation,
    /// Another operation on this pool is still in flight.
    Reentrancy,
}

/// Work that the pool asks its host to do on the token ledger, or, for
/// `Notify`, on the recipient of a swap.
#[derive(Clone, Debug, PartialEq, Eq)]
pub enum Call {
    /// Move `value` of `token` out of the pool's holding to `to`.
    Transfer { token: AccountId, to: AccountId, value: Balance },
    /// Create `value` liquidity shares and credit them to `to`.
    Mint { to: AccountId, value: Balance },
    /// Destroy `value` liquidity shares held by `from`.
    Burn { from: AccountId, value: Balance },
    /// Tell `recipient` that `sender` had `amount_out_0` and `amount_out_1`
    /// sent to it, and hand it `data`. The recipient may pay the pool before
    /// it returns.
    Notify {
        recipient: AccountId,
        sender: AccountId,
        amount_out_0: Balance,
        amount_out_1: Balance,
        data: Vec<u8>,
    },
}

/// Liquidity was provided.
#[derive(Clone, Copy, Debug, PartialEq, Eq)]
pub struct Mint {
    pub sender: AccountId,
    pub amount_0: Balance,
    pub amount_1: Balance,
}

/// Liquidity was withdrawn.
#[derive(Clone, Copy, Debug, PartialEq, Eq)]
pub struct Burn {
    pub sender: AccountId,
    pub to: AccountId,
    pub amount_0: Balance,
    pub amount_1: Balance,
}

/// A swap was executed.
#[derive(Clone, Copy, Debug, PartialEq, Eq)]
pub struct Swap {
    pub sender: AccountId,
    pub to: AccountId,
    pub amount_in_0: Balance,
    pub amount_in_1: Balance,
    pub amount_out_0: Balance,
    pub amount_out_1: Balance,
}

/// The reserves were set to the balances observed.
#[derive(Clone, Copy, Debug, PartialEq, Eq)]
pub struct Sync {
    pub reserve_0: Balance,
    pub reserve_1: Balance,
}

} // verus!
