use vstd::prelude::*;
use crate::address::Address;
use crate::engine::{buy_result, credited, lemma_quote_keeps, quote, Walk};
use crate::errors::PresaleError;
use crate::presale::{sold_sum, Presale};
use crate::user::UserInfo;

verus! {

/// Sum of the tokens allocated over a set of buyers' records.
pub open spec fn allocated_sum(users: Seq<UserInfo>) -> int
    decreases users.len(),
{
    if users.len() == 0 {
        0
    } else {
        allocated_sum(users.drop_last()) + users.last().buy_token_amount
    }
}

/// Replacing one record changes the sum by the difference of the two allocations.
pub proof fn lemma_allocated_sum_update(users: Seq<UserInfo>, k: int, u: UserInfo)
    requires
        0 <= k < users.len(),
    ensures
        allocated_sum(users.update(k, u)) == allocated_sum(users) - users[k].buy_token_amount
            + u.buy_token_amount,
    decreases users.len(),
{
    let v = users.update(k, u);
    if k == users.len() - 1 {
        assert(v.drop_last() =~= users.drop_last());
    } else {
        lemma_allocated_sum_update(users.drop_last(), k, u);
        assert(v.drop_last() =~= users.drop_last().update(k, u));
    }
}

/// The books balance across a purchase: if the sale's total equals the sum over its tiers
/// and the sum over the buyers' records before an accepted purchase by the buyer of record
/// `k`, it equals both sums after it.
pub proof fn lemma_ledgers_balance(
    p: Presale,
    users: Seq<UserInfo>,
    k: int,
    buyer: Address,
    payment: u64,
    now: u64,
)
    requires
        p.wf(),
        0 <= k < users.len(),
        allocated_sum(users) == p.sold_token_amount,
        buy_result(p, users[k], buyer, payment, now) is Ok,
    ensures
        ({
            let w = buy_result(p, users[k], buyer, payment, now)->Ok_0;
            &&& w.sold == sold_sum(w.levels)
            &&& allocated_sum(users.update(k, credited(users[k], buyer, payment, now, w))) == w.sold
        }),
{
    let w = buy_result(p, users[k], buyer, payment, now)->Ok_0;
    lemma_quote_keeps(p, payment, now);
    lemma_allocated_sum_update(users, k, credited(users[k], buyer, payment, now, w));
}

/// Whatever happened before, a well-formed sale has sold no more than its hard cap and
/// no more than what was deposited.
pub proof fn lemma_sale_within_caps(p: Presale)
    requires
        p.wf(),
    ensures
        p.sold_token_amount <= p.hardcap_amount,
        p.sold_token_amount <= p.deposit_token_amount,
        p.sold_token_amount == sold_sum(p.levels@),
{
}

/// A purchase never moves the tier pointer back and never clears a cap flag; the
/// amount sold grows by exactly what the buyer is allocated; afterwards both cap flags
/// say exactly whether their threshold is reached, and every tier before the pointer
/// is sold out.
pub proof fn lemma_purchase_is_monotone(
    p: Presale,
    u: UserInfo,
    buyer: Address,
    payment: u64,
    now: u64,
)
    requires
        p.wf(),
        buy_result(p, u, buyer, payment, now) is Ok,
    ensures
        ({
            let w = buy_result(p, u, buyer, payment, now)->Ok_0;
            &&& w.tier >= p.current_level
            &&& p.is_soft_capped ==> w.soft
            &&& p.is_hard_capped ==> w.hard
            &&& w.sold == p.sold_token_amount + w.bought
            &&& w.remaining <= payment
            &&& w.soft == (w.sold >= p.softcap_amount)
            &&& w.hard == (w.sold >= p.hardcap_amount)
            &&& w.hard ==> w.soft
            &&& forall|i: int| 0 <= i < w.tier ==> #[trigger] w.levels[i].tokens_sold
                == w.levels[i].token_amount
        }),
{
    lemma_quote_keeps(p, payment, now);
}

/// A purchase at or after the end of the window is refused as a lifecycle violation,
/// whether or not the sale is marked live, whoever buys and with whatever record.
pub proof fn lemma_no_purchase_after_window(
    p: Presale,
    u: UserInfo,
    buyer: Address,
    payment: u64,
    now: u64,
)
    requires
        now >= p.end_time,
    ensures
        buy_result(p, u, buyer, payment, now) == Err::<Walk, PresaleError>(
            PresaleError::PresaleEnded,
        ),
        quote(p, payment, now) == Err::<Walk, PresaleError>(PresaleError::PresaleEnded),
{
}

} // verus!
