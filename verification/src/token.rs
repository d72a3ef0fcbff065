use vstd::prelude::*;

verus! {

/// Who may mint, and an optional ceiling on the total supply.
pub struct MinterData {
    /// Address authorized to mint new tokens.
    pub minter: String,
    /// How large `total_supply` may ever become; `None` means unbounded.
    pub cap: Option<u128>,
}

/// Global token metadata.
pub struct TokenInfo {
    pub name: String,
    pub symbol: String,
    pub decimals: u8,
    pub total_supply: u128,
    pub mint: Option<MinterData>,
}

impl TokenInfo {
    /// The supply ceiling, if a minter with a cap is configured.
    pub open spec fn spec_cap(&self) -> Option<u128> {
        match self.mint {
            Some(ref m) => m.cap,
            None => None,
        }
    }

    /// `total_supply` never exceeds the cap when one is set.
    pub open spec fn wf(&self) -> bool {
        match self.spec_cap() {
            Some(cap) => self.total_supply <= cap,
            None => true,
        }
    }

    pub fn get_cap(&self) -> (r: Option<u128>)
        ensures
            r == self.spec_cap(),
    {
        match &self.mint {
            Some(m) => m.cap,
            None => None,
        }
    }
}

} // verus!
