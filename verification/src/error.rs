use vstd::prelude::*;

verus! {

/// Every failure a core operation can surface. Errors are returned
/// verbatim to the dispatch layer; no operation that fails leaves any
/// partial mutation behind.
#[derive(Clone, Copy, Debug, PartialEq, Eq, Structural)]
pub enum ContractError {
    /// The caller is not the configured minter.
    Unauthorized,
    /// Minting the requested amount would push `total_supply` past the cap.
    CapExceeded,
    /// A debit or transfer asked for more than the holder's balance.
    InsufficientFunds,
    /// A delegated transfer asked for more than the remaining allowance.
    InsufficientAllowance,
    /// The allowance exists but its expiration has passed.
    AllowanceExpired,
    /// A claim was attempted before the vesting cliff elapsed.
    CliffNotReached,
    /// A claim found no newly transferable tokens.
    NothingToClaim,
    /// No vesting record exists for the address.
    ScheduleNotFound,
    /// An intermediate sum or product would overflow the integer width.
    ArithmeticOverflow,
    /// An amount was zero where a positive amount is required.
    InvalidAmount,
}

} // verus!
