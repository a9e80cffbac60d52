use vstd::prelude::*;

verus! {

/// Units of the base asset that the seller locks as collateral.
pub const COLLATERAL_BASE: i128 = 1;

/// Strike price, in minor units of the quote asset.
pub const STRIKE: i128 = 500_000;

/// Premium paid at purchase, in minor units of the quote asset.
pub const PREMIUM: i128 = 100_000;

/// Time boundary of the option, in UNIX seconds.
pub const EXPIRY: u64 = 1767225600;

/// What the buyer still owes the seller when an oracle-settled option ends
/// in the money: the strike less the premium already paid.
pub const CASH_DIFF: i128 = 400_000;

/// The cash leg of an in-the-money claim is the strike net of the premium.
pub proof fn cash_diff_is_strike_less_premium()
    ensures
        CASH_DIFF == STRIKE - PREMIUM,
{
}

} // verus!
