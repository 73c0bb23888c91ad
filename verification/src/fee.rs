use vstd::prelude::*;
use solana_sdk::pubkey::Pubkey;

verus! {

/// The compute budget asked for a transaction: a ceiling on compute units
/// and the price paid per unit.
#[derive(Debug, Clone, Copy, PartialEq, Eq, Structural)]
pub struct PriorityFee {
    pub unit_limit: u32,
    pub unit_price: u64,
}

/// A tip owed to a relay provider: the account paid and the lamports paid.
#[derive(Debug, Clone, Copy)]
pub struct TipFee {
    pub tip_account: Pubkey,
    pub tip_lamports: u64,
}

impl PriorityFee {
    /// Two fee requests taken together: the limits add up, stopping at the
    /// largest 32-bit count, and the higher price is paid once.
    pub open spec fn combined(self, other: PriorityFee) -> PriorityFee {
        PriorityFee {
            unit_limit: if self.unit_limit + other.unit_limit > u32::MAX {
                u32::MAX
            } else {
                (self.unit_limit + other.unit_limit) as u32
            },
            unit_price: if self.unit_price >= other.unit_price {
                self.unit_price
            } else {
                other.unit_price
            },
        }
    }
}

impl PriorityFee {
    /// Takes two fee requests together; `+` does the same.
    pub fn combine(self, other: PriorityFee) -> (r: PriorityFee)
        ensures
            r == self.combined(other),
    {
        let unit_limit: u32 = if other.unit_limit > u32::MAX - self.unit_limit {
            u32::MAX
        } else {
            self.unit_limit + other.unit_limit
        };
        let unit_price: u64 = if self.unit_price >= other.unit_price {
            self.unit_price
        } else {
            other.unit_price
        };
        PriorityFee { unit_limit, unit_price }
    }
}

impl Default for PriorityFee {
    fn default() -> (r: PriorityFee)
        ensures
            r == (PriorityFee { unit_limit: 0, unit_price: 0 }),
    {
        PriorityFee { unit_limit: 0, unit_price: 0 }
    }
}

impl core::ops::Add for PriorityFee {
    type Output = PriorityFee;

    fn add(self, rhs: PriorityFee) -> (r: PriorityFee) {
        self.combine(rhs)
    }
}

impl vstd::std_specs::ops::AddSpecImpl for PriorityFee {
    open spec fn obeys_add_spec() -> bool {
        true
    }

    open spec fn add_req(self, rhs: PriorityFee) -> bool {
        true
    }

    open spec fn add_spec(self, rhs: PriorityFee) -> PriorityFee {
        self.combined(rhs)
    }
}

/// Combining fees never lowers either part, and the order of the two
/// requests does not matter.
pub proof fn lemma_combined_fee_covers_both(a: PriorityFee, b: PriorityFee)
    ensures
        a.combined(b) == b.combined(a),
        a.combined(b).unit_limit >= a.unit_limit,
        a.combined(b).unit_limit >= b.unit_limit,
        a.combined(b).unit_price >= a.unit_price,
        a.combined(b).unit_price >= b.unit_price,
        a.combined(b).unit_price == a.unit_price || a.combined(b).unit_price == b.unit_price,
{
}

} // verus!
