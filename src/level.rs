use vstd::prelude::*;

verus! {

/// One price tier of the sale.
#[derive(Clone, Copy, Debug, PartialEq, Eq, Structural)]
pub struct Level {
    /// Tokens that can be sold at this tier.
    pub token_amount: u64,
    /// Payment units per whole token, in the sale's price scale.
    pub price: u64,
    /// Informational threshold for per-tier reporting.
    pub soft_cap: u64,
    /// Tokens sold at this tier so far.
    pub tokens_sold: u64,
}

impl Level {
    /// A tier never sells more than it holds.
    pub open spec fn wf(self) -> bool {
        self.tokens_sold <= self.token_amount
    }

    pub open spec fn remaining_spec(self) -> int {
        self.token_amount - self.tokens_sold
    }

    /// A fresh tier with nothing sold.
    pub fn new(token_amount: u64, price: u64, soft_cap: u64) -> (r: Level)
        ensures
            r == (Level { token_amount, price, soft_cap, tokens_sold: 0 }),
    {
        Level { token_amount, price, soft_cap, tokens_sold: 0 }
    }

    /// Tokens still available at this tier.
    pub fn remaining(&self) -> (r: u64)
        requires
            self.wf(),
        ensures
            r == self.remaining_spec(),
    {
        self.token_amount - self.tokens_sold
    }

    /// Whether every token of this tier is sold.
    pub fn is_exhausted(&self) -> (r: bool)
        requires
            self.wf(),
        ensures
            r == (self.remaining_spec() == 0),
    {
        self.token_amount == self.tokens_sold
    }
}

} // verus!
