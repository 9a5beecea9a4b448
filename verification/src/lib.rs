//! State-transition engine of a two-asset constant-product pool.
//!
//! The pool keeps two reserves, issues and redeems liquidity shares in
//! proportion to them, and lets either asset be bought with the other as long
//! as the product of the reserves, net of a 0.3% fee, does not shrink.
//!
//! The engine owns no tokens. Balances are observed by the caller and handed
//! in; what has to happen outside (transfers, share mints and burns, the
//! callback of a flash swap) is handed back as a list of [`types::Call`]s.
//! An operation with outside work runs in two steps: the entry point checks
//! the request, takes the lock and returns the calls; once they are made, the
//! matching `*_settle` commits the result and releases the lock.
//!
//! All arithmetic is on 128-bit numbers and is checked. An operation whose
//! arithmetic would leave that range is not to be called: for each there is
//! a `*_fits` that tells beforehand. [`model`] says what every operation
//! does, over unbounded numbers; [`laws`] says what follows.

pub mod account;
pub mod laws;
pub mod math;
pub mod model;
pub mod pair;
pub mod types;

pub use account::AccountId;
pub use math::{min, sqrt, Balance};
pub use pair::{Pending, UniswapV2Pair};
pub use types::{Burn, Call, Mint, PairError, Swap, Sync};
pub use types::{FEE_DENOMINATOR, FEE_NUMERATOR, MINIMUM_LIQUIDITY, PRICE_SCALE};
