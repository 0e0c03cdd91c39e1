use vstd::prelude::*;
use crate::errors::PresaleError;
use crate::level::Level;
use crate::address::Address;
use crate::presale::{sold_sum, lemma_sold_sum_update, Presale, LEVEL_COUNT};
use crate::user::UserInfo;

verus! {

/// The figures of a sale that a purchase is checked against.
pub struct Caps {
    pub softcap: int,
    pub hardcap: int,
    pub deposit: int,
    pub scale: int,
}

/// The state of a purchase part-way through the walk over the tiers.
pub struct Walk {
    pub levels: Seq<Level>,
    pub tier: int,
    pub sold: int,
    /// Payment not yet converted into tokens.
    pub remaining: int,
    /// Tokens bought by this purchase so far.
    pub bought: int,
    pub soft: bool,
    pub hard: bool,
    /// Number of buying steps taken so far; each rounds the cost down once.
    pub steps: int,
}

pub open spec fn caps_of(p: Presale) -> Caps {
    Caps {
        softcap: p.softcap_amount as int,
        hardcap: p.hardcap_amount as int,
        deposit: p.deposit_token_amount as int,
        scale: p.price_scale as int,
    }
}

/// The walk of a purchase of `payment` before its first step.
pub open spec fn start_walk(p: Presale, payment: u64) -> Walk {
    Walk {
        levels: p.levels@,
        tier: p.current_level as int,
        sold: p.sold_token_amount as int,
        remaining: payment as int,
        bought: 0,
        soft: p.is_soft_capped,
        hard: p.is_hard_capped,
        steps: 0,
    }
}

/// Tokens left in the walk's current tier (zero past the last tier).
pub open spec fn avail(w: Walk) -> int {
    if 0 <= w.tier < w.levels.len() {
        w.levels[w.tier].token_amount - w.levels[w.tier].tokens_sold
    } else {
        0
    }
}

pub open spec fn tiers_left(w: Walk) -> nat {
    if w.tier < LEVEL_COUNT {
        (LEVEL_COUNT - w.tier) as nat
    } else {
        0
    }
}

pub open spec fn avail_left(w: Walk) -> nat {
    if avail(w) > 0 {
        avail(w) as nat
    } else {
        0
    }
}

pub open spec fn min(a: int, b: int) -> int {
    if a <= b {
        a
    } else {
        b
    }
}

/// The walk after buying `buy` tokens at the current tier for `cost`.
pub open spec fn bought_step(c: Caps, w: Walk, buy: int, cost: int) -> Walk {
    let lvl = w.levels[w.tier];
    let new_lvl = Level { tokens_sold: (lvl.tokens_sold + buy) as u64, ..lvl };
    let sold = w.sold + buy;
    Walk {
        levels: w.levels.update(w.tier, new_lvl),
        tier: if lvl.tokens_sold + buy >= lvl.token_amount {
            w.tier + 1
        } else {
            w.tier
        },
        sold,
        remaining: w.remaining - cost,
        bought: w.bought + buy,
        soft: sold >= c.softcap,
        hard: sold >= c.hardcap,
        steps: w.steps + 1,
    }
}

/// The walk over the tiers: at each tier the remaining payment buys as many whole
/// tokens as it affords at the tier's price, up to what the tier has left; a tier
/// that is sold out passes the walk on to the next. The walk stops when the payment
/// is spent, the tiers run out, nothing more can be afforded, or the hard cap is hit.
pub open spec fn run(c: Caps, w: Walk) -> Result<Walk, PresaleError>
    decreases tiers_left(w), avail_left(w),
{
    if w.remaining <= 0 || w.tier >= LEVEL_COUNT || w.tier < 0 || w.levels.len() != LEVEL_COUNT {
        Ok(w)
    } else if avail(w) <= 0 {
        run(c, Walk { tier: w.tier + 1, ..w })
    } else {
        let lvl = w.levels[w.tier];
        if w.remaining * c.scale > u64::MAX || lvl.price == 0 {
            Err(PresaleError::CalculationOverflow)
        } else {
            let buy = min((w.remaining * c.scale) / (lvl.price as int), avail(w));
            if buy * lvl.price > u64::MAX {
                Err(PresaleError::CalculationOverflow)
            } else if buy <= 0 {
                Ok(w)
            } else if w.sold + buy > c.hardcap {
                Err(PresaleError::HardCapped)
            } else if w.sold + buy > c.deposit {
                Err(PresaleError::ExceedsDepositAmount)
            } else {
                let next = bought_step(c, w, buy, (buy * lvl.price) / c.scale);
                if next.hard {
                    Ok(next)
                } else {
                    run(c, next)
                }
            }
        }
    }
}

/// The outcome of a purchase of `payment` at time `now`: the finished walk, or why the
/// purchase is refused. Payment that is left over is accepted only once the hard cap is hit.
pub open spec fn quote(p: Presale, payment: u64, now: u64) -> Result<Walk, PresaleError> {
    if p.has_ended(now) {
        Err(PresaleError::PresaleEnded)
    } else if !p.is_live {
        Err(PresaleError::PresaleNotStarted)
    } else if payment == 0 {
        Err(PresaleError::NotAllowed)
    } else {
        match run(caps_of(p), start_walk(p, payment)) {
            Err(e) => Err(e),
            Ok(w) => if w.remaining > 0 && !w.hard {
                Err(PresaleError::ExactPaymentRequired)
            } else {
                Ok(w)
            },
        }
    }
}

/// What holds of every state of the walk: tiers within their sizes, the total equal
/// to the sum over the tiers, within both caps, and flags only set when earned.
pub open spec fn walk_inv(c: Caps, w: Walk) -> bool {
    &&& w.levels.len() == LEVEL_COUNT
    &&& forall|i: int| 0 <= i < LEVEL_COUNT ==> (#[trigger] w.levels[i]).wf()
    &&& 0 <= w.tier <= LEVEL_COUNT
    &&& w.sold == sold_sum(w.levels)
    &&& w.sold <= c.hardcap
    &&& w.sold <= c.deposit
    &&& w.soft ==> w.sold >= c.softcap
    &&& w.hard ==> w.sold >= c.hardcap
    &&& w.hard ==> w.soft
    &&& forall|i: int| 0 <= i < w.tier ==> #[trigger] w.levels[i].tokens_sold
        == w.levels[i].token_amount
    &&& w.steps > 0 ==> (w.soft == (w.sold >= c.softcap) && w.hard == (w.sold >= c.hardcap))
    &&& c.softcap <= c.hardcap
    &&& w.remaining >= 0
    &&& w.bought >= 0
    &&& w.steps >= 0
    &&& c.scale > 0
}

/// A tier as it stands later: the same tier, with at least as much sold.
pub open spec fn tier_grew(before: Level, after: Level) -> bool {
    &&& after == (Level { tokens_sold: after.tokens_sold, ..before })
    &&& after.tokens_sold >= before.tokens_sold
}

/// How a later state of the walk relates to an earlier one: the tier pointer and the
/// tiers' counts only grow, what was sold went to this purchase, the payment left only
/// shrinks, and a flag once set stays set.
pub open spec fn walk_progress(w1: Walk, w2: Walk) -> bool {
    &&& w2.tier >= w1.tier
    &&& w2.sold - w1.sold == w2.bought - w1.bought
    &&& w2.remaining <= w1.remaining
    &&& w1.soft ==> w2.soft
    &&& w1.hard ==> w2.hard
    &&& w2.steps >= w1.steps
    &&& w2.steps == w1.steps ==> w2.remaining == w1.remaining && w2.sold == w1.sold
    &&& w2.levels.len() == w1.levels.len()
    &&& forall|i: int| 0 <= i < w1.levels.len() ==> tier_grew(#[trigger] w1.levels[i], w2.levels[i])
}

/// Every finished walk keeps the invariant and has made progress from where it started.
pub proof fn lemma_run_keeps(c: Caps, w: Walk)
    requires
        walk_inv(c, w),
        run(c, w) is Ok,
    ensures
        walk_inv(c, run(c, w)->Ok_0),
        walk_progress(w, run(c, w)->Ok_0),
    decreases tiers_left(w), avail_left(w),
{
    if w.remaining <= 0 || w.tier >= LEVEL_COUNT || w.tier < 0 || w.levels.len() != LEVEL_COUNT {
    } else if avail(w) <= 0 {
        let w1 = Walk { tier: w.tier + 1, ..w };
        assert(w.levels[w.tier].wf());
        lemma_run_keeps(c, w1);
    } else {
        let lvl = w.levels[w.tier];
        let buy = min((w.remaining * c.scale) / (lvl.price as int), avail(w));
        let cost = (buy * lvl.price) / c.scale;
        lemma_cost_within(w.remaining, c.scale, lvl.price as int, buy);
        let next = bought_step(c, w, buy, cost);
        if buy > 0 && w.sold + buy <= c.hardcap && w.sold + buy <= c.deposit {
            let new_lvl = Level { tokens_sold: (lvl.tokens_sold + buy) as u64, ..lvl };
            lemma_sold_sum_update(w.levels, w.tier, new_lvl);
            assert forall|i: int| 0 <= i < next.tier implies #[trigger] next.levels[i].tokens_sold
                == next.levels[i].token_amount by {
                if i != w.tier {
                    assert(next.levels[i] == w.levels[i]);
                }
            }
            assert forall|i: int| 0 <= i < LEVEL_COUNT implies (#[trigger] next.levels[i]).wf() by {
                if i != w.tier {
                    assert(next.levels[i] == w.levels[i]);
                }
            }
            assert forall|i: int| 0 <= i < w.levels.len() implies tier_grew(
                #[trigger] w.levels[i],
                next.levels[i],
            ) by {
                if i != w.tier {
                    assert(next.levels[i] == w.levels[i]);
                }
            }
            assert(walk_inv(c, next));
            if !next.hard {
                lemma_run_keeps(c, next);
                let fin = run(c, next)->Ok_0;
                assert forall|i: int| 0 <= i < w.levels.len() implies tier_grew(
                    #[trigger] w.levels[i],
                    fin.levels[i],
                ) by {
                    assert(tier_grew(w.levels[i], next.levels[i]));
                    assert(tier_grew(next.levels[i], fin.levels[i]));
                }
            }
        }
    }
}

/// Payment value, at the tiers' prices, of the tokens sold in the first `n` tiers
/// between two states of the tiers.
pub open spec fn value_sold(before: Seq<Level>, after: Seq<Level>, n: int) -> int
    decreases n,
{
    if n <= 0 {
        0
    } else {
        value_sold(before, after, n - 1) + (after[n - 1].tokens_sold - before[n - 1].tokens_sold)
            * after[n - 1].price
    }
}

proof fn lemma_value_sold_same(a: Seq<Level>, n: int)
    ensures
        value_sold(a, a, n) == 0,
    decreases n,
{
    if n > 0 {
        lemma_value_sold_same(a, n - 1);
    }
}

proof fn lemma_value_sold_update(b: Seq<Level>, a: Seq<Level>, k: int, l: Level, n: int)
    requires
        0 <= k < a.len(),
        n <= a.len(),
        l.price == a[k].price,
    ensures
        value_sold(b, a.update(k, l), n) == value_sold(b, a, n) + (if k < n {
            (l.tokens_sold - a[k].tokens_sold) * a[k].price
        } else {
            0
        }),
    decreases n,
{
    if n > 0 {
        lemma_value_sold_update(b, a, k, l, n - 1);
        if k == n - 1 {
            let x = l.tokens_sold - b[k].tokens_sold;
            let y = a[k].tokens_sold - b[k].tokens_sold;
            let d = l.tokens_sold - a[k].tokens_sold;
            let pr = a[k].price as int;
            assert(x * pr == y * pr + d * pr) by (nonlinear_arith)
                requires
                    x == y + d,
            ;
        }
    }
}

proof fn lemma_value_sold_chain(a: Seq<Level>, b: Seq<Level>, c: Seq<Level>, n: int)
    requires
        n <= b.len(),
        b.len() == c.len(),
        forall|i: int| 0 <= i < b.len() ==> (#[trigger] c[i]).price == b[i].price,
    ensures
        value_sold(a, c, n) == value_sold(a, b, n) + value_sold(b, c, n),
    decreases n,
{
    if n > 0 {
        lemma_value_sold_chain(a, b, c, n - 1);
        let i = n - 1;
        let x = c[i].tokens_sold - a[i].tokens_sold;
        let y = b[i].tokens_sold - a[i].tokens_sold;
        let d = c[i].tokens_sold - b[i].tokens_sold;
        let pr = c[i].price as int;
        assert(x * pr == y * pr + d * pr) by (nonlinear_arith)
            requires
                x == y + d,
        ;
    }
}

proof fn lemma_rounding(v: int, s: int)
    requires
        v >= 0,
        s > 0,
    ensures
        (v / s) * s <= v <= (v / s) * s + (s - 1),
{
    assert((v / s) * s <= v <= (v / s) * s + (s - 1)) by (nonlinear_arith)
        requires
            v >= 0,
            s > 0,
    ;
}

/// Over any finished walk, the payment converted is the tokens' value at the tiers'
/// prices, rounded down at each step by less than one payment unit.
proof fn lemma_run_value(c: Caps, w: Walk)
    requires
        walk_inv(c, w),
        run(c, w) is Ok,
    ensures
        ({
            let fin = run(c, w)->Ok_0;
            let spent = w.remaining - fin.remaining;
            let v = value_sold(w.levels, fin.levels, LEVEL_COUNT as int);
            spent * c.scale <= v <= spent * c.scale + (fin.steps - w.steps) * (c.scale - 1)
        }),
    decreases tiers_left(w), avail_left(w),
{
    lemma_run_keeps(c, w);
    lemma_value_sold_same(w.levels, LEVEL_COUNT as int);
    assert(0 * c.scale == 0 && 0 * (c.scale - 1) == 0) by (nonlinear_arith);
    if w.remaining <= 0 || w.tier >= LEVEL_COUNT || w.tier < 0 || w.levels.len() != LEVEL_COUNT {
    } else if avail(w) <= 0 {
        let w1 = Walk { tier: w.tier + 1, ..w };
        lemma_run_value(c, w1);
    } else {
        let lvl = w.levels[w.tier];
        let buy = min((w.remaining * c.scale) / (lvl.price as int), avail(w));
        let cost = (buy * lvl.price) / c.scale;
        lemma_cost_within(w.remaining, c.scale, lvl.price as int, buy);
        let next = bought_step(c, w, buy, cost);
        if buy > 0 && w.sold + buy <= c.hardcap && w.sold + buy <= c.deposit && buy * lvl.price
            <= u64::MAX && w.remaining * c.scale <= u64::MAX && lvl.price != 0 {
            let new_lvl = Level { tokens_sold: (lvl.tokens_sold + buy) as u64, ..lvl };
            lemma_value_sold_same(w.levels, LEVEL_COUNT as int);
            lemma_value_sold_update(w.levels, w.levels, w.tier, new_lvl, LEVEL_COUNT as int);
            assert(value_sold(w.levels, next.levels, LEVEL_COUNT as int) == buy * lvl.price);
            assert(buy * lvl.price >= 0) by (nonlinear_arith)
                requires
                    buy > 0,
            ;
            lemma_rounding(buy * lvl.price, c.scale);
            assert(1 * (c.scale - 1) == c.scale - 1);
            if !next.hard {
                let w_next = next;
                assert(walk_inv(c, w_next)) by {
                    lemma_sold_sum_update(w.levels, w.tier, new_lvl);
                    assert forall|i: int| 0 <= i < w_next.tier implies #[trigger] w_next.levels[i].tokens_sold
                        == w_next.levels[i].token_amount by {
                        if i != w.tier {
                            assert(w_next.levels[i] == w.levels[i]);
                        }
                    }
                    assert forall|i: int| 0 <= i < LEVEL_COUNT implies (
                    #[trigger] w_next.levels[i]).wf() by {
                        if i != w.tier {
                            assert(w_next.levels[i] == w.levels[i]);
                        }
                    }
                }
                lemma_run_value(c, w_next);
                lemma_run_keeps(c, w_next);
                let fin = run(c, w_next)->Ok_0;
                assert forall|i: int| 0 <= i < w_next.levels.len() implies (#[trigger] fin.levels[i]).price
                    == w_next.levels[i].price by {
                    assert(tier_grew(w_next.levels[i], fin.levels[i]));
                }
                lemma_value_sold_chain(w.levels, w_next.levels, fin.levels, LEVEL_COUNT as int);
                let s1 = w.remaining - w_next.remaining;
                let s2 = w_next.remaining - fin.remaining;
                assert((s1 + s2) * c.scale == s1 * c.scale + s2 * c.scale) by (nonlinear_arith);
                assert((fin.steps - w.steps) * (c.scale - 1) == (w_next.steps - w.steps) * (c.scale - 1)
                    + (fin.steps - w_next.steps) * (c.scale - 1)) by (nonlinear_arith);
            }
        }
    }
}

/// The payment charged for a purchase corresponds to the tokens it allocated: it is the
/// value of those tokens at the prices of the tiers they came from, in the sale's price
/// scale, rounded down at each step of the walk by less than one payment unit.
pub proof fn lemma_payment_matches_tokens(p: Presale, payment: u64, now: u64)
    requires
        p.wf(),
        quote(p, payment, now) is Ok,
    ensures
        ({
            let w = quote(p, payment, now)->Ok_0;
            let spent = payment - w.remaining;
            let v = value_sold(p.levels@, w.levels, LEVEL_COUNT as int);
            &&& spent * p.price_scale <= v
            &&& v <= spent * p.price_scale + w.steps * (p.price_scale - 1)
        }),
{
    lemma_run_value(caps_of(p), start_walk(p, payment));
}

/// The full effect of an accepted purchase, computed before anything is committed.
#[derive(Clone, Copy, Debug)]
pub struct Allocation {
    pub levels: [Level; 7],
    pub current_level: u8,
    pub sold_token_amount: u64,
    pub is_soft_capped: bool,
    pub is_hard_capped: bool,
    /// Tokens the buyer receives.
    pub tokens_out: u64,
    /// Payment actually charged to the buyer.
    pub payment_spent: u64,
}

impl Allocation {
    /// This allocation is the finished walk `w` of a purchase of `payment`.
    pub open spec fn is_walk(&self, w: Walk, payment: u64) -> bool {
        &&& self.levels@ == w.levels
        &&& self.current_level == w.tier
        &&& self.sold_token_amount == w.sold
        &&& self.is_soft_capped == w.soft
        &&& self.is_hard_capped == w.hard
        &&& self.tokens_out == w.bought
        &&& self.payment_spent == payment - w.remaining
    }
}

/// What a buyer gets from an accepted purchase.
#[derive(Clone, Copy, Debug, PartialEq, Eq, Structural)]
pub struct Purchase {
    /// Tokens allocated to the buyer.
    pub tokens_out: u64,
    /// Payment charged; the caller moves exactly this much from the buyer.
    pub payment_spent: u64,
}

/// The outcome of `buy_tokens`: the finished walk, or why the purchase is refused.
/// The sale must be open; a record that holds contributions belongs to its buyer alone;
/// the buyer's and the sale's running totals must stay within 64 bits.
pub open spec fn buy_result(p: Presale, u: UserInfo, buyer: Address, payment: u64, now: u64) -> Result<
    Walk,
    PresaleError,
> {
    if p.has_ended(now) {
        Err(PresaleError::PresaleEnded)
    } else if !p.is_live {
        Err(PresaleError::PresaleNotStarted)
    } else if !u.is_fresh() && u.buyer != buyer {
        Err(PresaleError::Unauthorized)
    } else {
        match quote(p, payment, now) {
            Err(e) => Err(e),
            Ok(w) => if u.buy_quote_amount + (payment - w.remaining) > u64::MAX
                || u.buy_token_amount + w.bought > u64::MAX || p.raised_amount + (payment
                - w.remaining) > u64::MAX {
                Err(PresaleError::MathOverflow)
            } else {
                Ok(w)
            },
        }
    }
}

/// The sale after a purchase that finished as walk `w`.
pub open spec fn committed(old_sale: Presale, new_sale: Presale, payment: u64, w: Walk) -> bool {
    &&& new_sale.levels@ == w.levels
    &&& new_sale == (Presale {
        levels: new_sale.levels,
        current_level: w.tier as u8,
        sold_token_amount: w.sold as u64,
        is_soft_capped: w.soft,
        is_hard_capped: w.hard,
        raised_amount: (old_sale.raised_amount + (payment - w.remaining)) as u64,
        ..old_sale
    })
}

/// The buyer's record after a purchase of `payment` that finished as walk `w`.
pub open spec fn credited(u: UserInfo, buyer: Address, payment: u64, now: u64, w: Walk) -> UserInfo {
    UserInfo {
        buyer,
        buy_quote_amount: (u.buy_quote_amount + (payment - w.remaining)) as u64,
        buy_token_amount: (u.buy_token_amount + w.bought) as u64,
        buy_time: now,
        ..u
    }
}

/// The walk of an accepted purchase keeps the sale's invariant and only moves forward.
pub proof fn lemma_quote_keeps(p: Presale, payment: u64, now: u64)
    requires
        p.wf(),
        quote(p, payment, now) is Ok,
    ensures
        walk_inv(caps_of(p), quote(p, payment, now)->Ok_0),
        walk_progress(start_walk(p, payment), quote(p, payment, now)->Ok_0),
        ({
            let w = quote(p, payment, now)->Ok_0;
            &&& w.soft == (w.sold >= p.softcap_amount)
            &&& w.hard == (w.sold >= p.hardcap_amount)
        }),
{
    lemma_run_keeps(caps_of(p), start_walk(p, payment));
}

proof fn lemma_cost_within(r: int, s: int, p: int, buy: int)
    requires
        r >= 0,
        s > 0,
        p > 0,
        0 <= buy <= (r * s) / p,
    ensures
        0 <= (buy * p) / s <= r,
{
    let a = (r * s) / p;
    assert(a * p <= r * s) by (nonlinear_arith)
        requires
            a == (r * s) / p,
            p > 0,
            r >= 0,
            s > 0,
    ;
    assert(buy * p <= a * p) by (nonlinear_arith)
        requires
            buy <= a,
            p > 0,
    ;
    assert(0 <= (buy * p) / s <= r) by (nonlinear_arith)
        requires
            buy * p <= r * s,
            buy >= 0,
            p > 0,
            s > 0,
    ;
}

impl Presale {
    /// Computes the effect of a purchase of `payment` at time `now` without changing
    /// the sale: the tiers' new counts, the new totals and flags, the tokens bought and
    /// the payment charged; or the error the purchase is refused with.
    pub fn plan_purchase(&self, payment: u64, now: u64) -> (r: Result<Allocation, PresaleError>)
        requires
            self.wf(),
        ensures
            r is Ok <==> quote(*self, payment, now) is Ok,
            r matches Err(e) ==> quote(*self, payment, now) == Err::<Walk, PresaleError>(e),
            r matches Ok(a) ==> a.is_walk(quote(*self, payment, now)->Ok_0, payment),
    {
        if self.ended(now) {
            return Err(PresaleError::PresaleEnded);
        }
        if !self.is_live {
            return Err(PresaleError::PresaleNotStarted);
        }
        if payment == 0 {
            return Err(PresaleError::NotAllowed);
        }
        let ghost c = caps_of(*self);
        let ghost w0 = start_walk(*self, payment);
        let mut levels = self.levels;
        let mut tier: usize = self.current_level as usize;
        let mut sold: u64 = self.sold_token_amount;
        let mut remaining: u64 = payment;
        let mut bought: u64 = 0;
        let mut soft: bool = self.is_soft_capped;
        let mut hard: bool = self.is_hard_capped;
        let ghost mut steps: int = 0;
        let scale = self.price_scale;
        let hardcap = self.hardcap_amount;
        let deposit = self.deposit_token_amount;
        loop
            invariant_except_break
                run(c, Walk { levels: levels@, tier: tier as int, sold: sold as int,
                    remaining: remaining as int, bought: bought as int, soft, hard, steps })
                    == run(c, w0),
            invariant
                self.wf(),
                !self.has_ended(now),
                self.is_live,
                payment > 0,
                c == caps_of(*self),
                w0 == start_walk(*self, payment),
                scale == self.price_scale,
                hardcap == self.hardcap_amount,
                deposit == self.deposit_token_amount,
                levels@.len() == LEVEL_COUNT,
                forall|i: int| 0 <= i < LEVEL_COUNT ==> (#[trigger] levels@[i]).wf(),
                tier <= LEVEL_COUNT,
                sold == sold_sum(levels@),
                sold <= hardcap,
                sold <= deposit,
                bought + self.sold_token_amount == sold,
                remaining <= payment,
            ensures
                run(c, w0) == Ok::<Walk, PresaleError>(Walk { levels: levels@, tier: tier as int,
                    sold: sold as int, remaining: remaining as int, bought: bought as int, soft,
                    hard, steps }),
                tier <= LEVEL_COUNT,
                remaining <= payment,
            decreases
                tiers_left(Walk { levels: levels@, tier: tier as int, sold: sold as int,
                    remaining: remaining as int, bought: bought as int, soft, hard, steps }),
                avail_left(Walk { levels: levels@, tier: tier as int, sold: sold as int,
                    remaining: remaining as int, bought: bought as int, soft, hard, steps }),
        {
            let ghost w = Walk { levels: levels@, tier: tier as int, sold: sold as int,
                remaining: remaining as int, bought: bought as int, soft, hard, steps };
            if remaining == 0 || tier >= LEVEL_COUNT {
                break;
            }
            let lvl = levels[tier];
            let left = lvl.token_amount - lvl.tokens_sold;
            if left == 0 {
                tier = tier + 1;
                continue;
            }
            let afford = match remaining.checked_mul(scale) {
                Some(x) => match x.checked_div(lvl.price) {
                    Some(y) => y,
                    None => {
                        assert(run(c, w) == Err::<Walk, PresaleError>(PresaleError::CalculationOverflow));
                        return Err(PresaleError::CalculationOverflow);
                    },
                },
                None => {
                    assert(run(c, w) == Err::<Walk, PresaleError>(PresaleError::CalculationOverflow));
                    return Err(PresaleError::CalculationOverflow);
                },
            };
            let buy = if afford < left {
                afford
            } else {
                left
            };
            let cost = match buy.checked_mul(lvl.price) {
                Some(x) => x / scale,
                None => return Err(PresaleError::CalculationOverflow),
            };
            if buy == 0 {
                break;
            }
            if buy > hardcap - sold {
                return Err(PresaleError::HardCapped);
            }
            if buy > deposit - sold {
                return Err(PresaleError::ExceedsDepositAmount);
            }
            proof {
                lemma_cost_within(remaining as int, scale as int, lvl.price as int, buy as int);
                lemma_sold_sum_update(levels@, tier as int, Level { tokens_sold: (lvl.tokens_sold + buy) as u64, ..lvl });
            }
            let ghost next = bought_step(c, w, buy as int, cost as int);
            levels[tier] = Level { tokens_sold: lvl.tokens_sold + buy, ..lvl };
            sold = sold + buy;
            bought = bought + buy;
            remaining = remaining - cost;
            soft = sold >= self.softcap_amount;
            hard = sold >= hardcap;
            proof {
                steps = steps + 1;
            }
            if lvl.tokens_sold + buy >= lvl.token_amount {
                tier = tier + 1;
            }
            assert(levels@ =~= next.levels);
            if hard {
                break;
            }
        }
        if remaining > 0 && !hard {
            return Err(PresaleError::ExactPaymentRequired);
        }
        Ok(Allocation {
            levels,
            current_level: tier as u8,
            sold_token_amount: sold,
            is_soft_capped: soft,
            is_hard_capped: hard,
            tokens_out: bought,
            payment_spent: payment - remaining,
        })
    }

    /// Buys tokens for `buyer` with up to `payment` at time `now`, walking the tiers from
    /// the current one. On success the sale and the buyer's record are updated together
    /// and the purchase tells how many tokens were allocated and how much payment to move;
    /// on failure neither record changes.
    pub fn buy_tokens(
        &mut self,
        user: &mut UserInfo,
        buyer: &Address,
        payment: u64,
        now: u64,
    ) -> (r: Result<Purchase, PresaleError>)
        requires
            old(self).wf(),
            old(user).wf(),
        ensures
            final(self).wf(),
            final(user).wf(),
            r is Ok <==> buy_result(*old(self), *old(user), *buyer, payment, now) is Ok,
            r matches Err(e) ==> buy_result(*old(self), *old(user), *buyer, payment, now) == Err::<
                Walk,
                PresaleError,
            >(e),
            r matches Ok(pu) ==> {
                let w = buy_result(*old(self), *old(user), *buyer, payment, now)->Ok_0;
                &&& pu.tokens_out == w.bought
                &&& pu.payment_spent == payment - w.remaining
                &&& committed(*old(self), *final(self), payment, w)
                &&& *final(user) == credited(*old(user), *buyer, payment, now, w)
            },
            r is Err ==> *final(self) == *old(self) && *final(user) == *old(user),
    {
        if self.ended(now) {
            return Err(PresaleError::PresaleEnded);
        }
        if !self.is_live {
            return Err(PresaleError::PresaleNotStarted);
        }
        if !user.fresh() && !user.buyer.same_as(buyer) {
            return Err(PresaleError::Unauthorized);
        }
        let a = match self.plan_purchase(payment, now) {
            Ok(a) => a,
            Err(e) => return Err(e),
        };
        proof {
            lemma_quote_keeps(*self, payment, now);
        }
        let paid = match user.buy_quote_amount.checked_add(a.payment_spent) {
            Some(x) => x,
            None => return Err(PresaleError::MathOverflow),
        };
        let got = match user.buy_token_amount.checked_add(a.tokens_out) {
            Some(x) => x,
            None => return Err(PresaleError::MathOverflow),
        };
        let raised = match self.raised_amount.checked_add(a.payment_spent) {
            Some(x) => x,
            None => return Err(PresaleError::MathOverflow),
        };
        self.levels = a.levels;
        self.current_level = a.current_level;
        self.sold_token_amount = a.sold_token_amount;
        self.is_soft_capped = a.is_soft_capped;
        self.is_hard_capped = a.is_hard_capped;
        self.raised_amount = raised;
        user.buyer = *buyer;
        user.buy_quote_amount = paid;
        user.buy_token_amount = got;
        user.buy_time = now;
        Ok(Purchase { tokens_out: a.tokens_out, payment_spent: a.payment_spent })
    }
}

} // verus!
