use vstd::prelude::*;
use crate::address::Address;
use crate::errors::PresaleError;
use crate::level::Level;

verus! {

/// Number of price tiers of a sale.
pub const LEVEL_COUNT: usize = 7;

/// Sum of the tokens sold over a sequence of tiers.
pub open spec fn sold_sum(levels: Seq<Level>) -> int
    decreases levels.len(),
{
    if levels.len() == 0 {
        0
    } else {
        sold_sum(levels.drop_last()) + levels.last().tokens_sold
    }
}

/// Replacing one tier changes the sum by the difference of the two tiers' sold counts.
pub proof fn lemma_sold_sum_update(levels: Seq<Level>, i: int, l: Level)
    requires
        0 <= i < levels.len(),
    ensures
        sold_sum(levels.update(i, l)) == sold_sum(levels) - levels[i].tokens_sold + l.tokens_sold,
    decreases levels.len(),
{
    let u = levels.update(i, l);
    if i == levels.len() - 1 {
        assert(u.drop_last() =~= levels.drop_last());
    } else {
        lemma_sold_sum_update(levels.drop_last(), i, l);
        assert(u.drop_last() =~= levels.drop_last().update(i, l));
    }
}

/// The sum over all tiers is at least the sum over a prefix.
pub proof fn lemma_sold_sum_prefix_bound(levels: Seq<Level>, n: int)
    requires
        0 <= n <= levels.len(),
    ensures
        sold_sum(levels) >= sold_sum(levels.subrange(0, n)),
    decreases levels.len(),
{
    if n < levels.len() {
        assert(levels.drop_last().subrange(0, n) =~= levels.subrange(0, n));
        lemma_sold_sum_prefix_bound(levels.drop_last(), n);
    } else {
        assert(levels.subrange(0, n) =~= levels);
    }
}

/// Tiers with nothing sold sum to zero.
pub proof fn lemma_sold_sum_zero(levels: Seq<Level>)
    requires
        forall|i: int| 0 <= i < levels.len() ==> #[trigger] levels[i].tokens_sold == 0,
    ensures
        sold_sum(levels) == 0,
    decreases levels.len(),
{
    if levels.len() > 0 {
        lemma_sold_sum_zero(levels.drop_last());
    }
}

/// The record of one sale.
#[derive(Clone, Copy, Debug)]
pub struct Presale {
    pub seed: u64,
    /// The party allowed to fund, start, end, withdraw from and close the sale.
    pub admin: Address,
    /// Whether purchases are admitted (subject to the time window).
    pub is_live: bool,
    /// Whether the sale was ended; an ended sale never goes live again.
    pub is_ended: bool,
    /// The tier that the next purchase starts at.
    pub current_level: u8,
    pub levels: [Level; 7],
    /// Tokens sold over all tiers.
    pub sold_token_amount: u64,
    /// The asset being sold.
    pub token_mint_address: Address,
    /// The asset buyers pay with.
    pub usd_mint: Address,
    /// Minimum amount of tokens sold for the sale to succeed.
    pub softcap_amount: u64,
    /// Maximum amount of tokens the sale will ever sell.
    pub hardcap_amount: u64,
    /// Tokens the admin has put into custody for sale.
    pub deposit_token_amount: u64,
    /// Number of payment units that a unit price is scaled by.
    pub price_scale: u64,
    pub start_time: u64,
    pub end_time: u64,
    pub is_soft_capped: bool,
    pub is_hard_capped: bool,
    /// Whether the admin took back the inventory left over.
    pub is_token_withdrawn: bool,
    /// Whether the admin took the raised payments.
    pub is_usd_withdrawn: bool,
    /// Payment received from buyers.
    pub raised_amount: u64,
    /// Tokens handed out to buyers who claimed.
    pub claimed_amount: u64,
    /// Payment given back to buyers who took a refund.
    pub refunded_amount: u64,
}

impl Presale {
    /// The invariant that every operation on a sale keeps.
    pub open spec fn wf(&self) -> bool {
        &&& forall|i: int| 0 <= i < LEVEL_COUNT ==> (#[trigger] self.levels@[i]).wf()
        &&& self.current_level <= LEVEL_COUNT
        &&& self.sold_token_amount == sold_sum(self.levels@)
        &&& self.sold_token_amount <= self.hardcap_amount
        &&& self.sold_token_amount <= self.deposit_token_amount
        &&& self.softcap_amount <= self.hardcap_amount
        &&& self.price_scale > 0
        &&& self.is_soft_capped ==> self.sold_token_amount >= self.softcap_amount
        &&& self.is_hard_capped ==> self.sold_token_amount >= self.hardcap_amount
        &&& self.is_hard_capped ==> self.is_soft_capped
        &&& forall|i: int| 0 <= i < self.current_level ==> #[trigger] self.levels@[i].tokens_sold
            == self.levels@[i].token_amount
        &&& self.is_live ==> !self.is_ended
    }

    /// Custody holds nothing more for anyone: the admin took back the unsold inventory,
    /// and either the sale succeeded, every sold token was claimed and the admin took the
    /// payments, or it failed and every payment was refunded.
    pub open spec fn custody_settled(&self) -> bool {
        &&& self.is_token_withdrawn
        &&& if self.reached_soft_cap() {
            self.claimed_amount >= self.sold_token_amount && self.is_usd_withdrawn
        } else {
            self.refunded_amount >= self.raised_amount
        }
    }

    /// The sale is over: ended by the admin, or its window has elapsed.
    pub open spec fn has_ended(&self, now: u64) -> bool {
        self.is_ended || now >= self.end_time
    }

    /// The sale reached its soft cap: buyers claim tokens rather than refunds.
    pub open spec fn reached_soft_cap(&self) -> bool {
        self.sold_token_amount >= self.softcap_amount
    }

    /// Unsold inventory, which the admin may take back once the sale is over.
    pub open spec fn residual_inventory(&self) -> int {
        if self.reached_soft_cap() {
            self.deposit_token_amount - self.sold_token_amount
        } else {
            self.deposit_token_amount as int
        }
    }

    /// Checks the invariant on a record read from storage.
    pub fn is_well_formed(&self) -> (r: bool)
        ensures
            r == self.wf(),
    {
        let mut total: u64 = 0;
        let mut i: usize = 0;
        while i < LEVEL_COUNT
            invariant
                i <= LEVEL_COUNT,
                self.levels@.len() == LEVEL_COUNT,
                forall|j: int| 0 <= j < i ==> (#[trigger] self.levels@[j]).wf(),
                forall|j: int| 0 <= j < i && j < self.current_level ==> #[trigger] self.levels@[j].tokens_sold
                    == self.levels@[j].token_amount,
                total == sold_sum(self.levels@.subrange(0, i as int)),
            decreases LEVEL_COUNT - i,
        {
            let l = self.levels[i];
            assert(self.levels@.subrange(0, i + 1).drop_last() =~= self.levels@.subrange(0, i as int));
            if l.tokens_sold > l.token_amount || (i < self.current_level as usize && l.tokens_sold
                != l.token_amount) {
                return false;
            }
            total = match total.checked_add(l.tokens_sold) {
                Some(t) => t,
                None => {
                    proof {
                        lemma_sold_sum_prefix_bound(self.levels@, i as int + 1);
                    }
                    return false;
                },
            };
            i = i + 1;
        }
        assert(self.levels@.subrange(0, LEVEL_COUNT as int) =~= self.levels@);
        total == self.sold_token_amount && self.current_level as usize <= LEVEL_COUNT
            && self.sold_token_amount <= self.hardcap_amount
            && self.sold_token_amount <= self.deposit_token_amount
            && self.softcap_amount <= self.hardcap_amount && self.price_scale > 0 && (
        !self.is_soft_capped || self.sold_token_amount >= self.softcap_amount) && (
        !self.is_hard_capped || self.sold_token_amount >= self.hardcap_amount) && (
        !self.is_hard_capped || self.is_soft_capped) && (!self.is_live || !self.is_ended)
    }

    pub fn ended(&self, now: u64) -> (r: bool)
        ensures
            r == self.has_ended(now),
    {
        self.is_ended || now >= self.end_time
    }

    /// Creates a sale that is not live, with nothing deposited, nothing sold and every
    /// counter at zero; inventory comes in by `deposit_token` only.
    /// Fails with `NotAllowed` when the soft cap exceeds the hard cap or the scale is zero.
    pub fn init_presale(
        seed: u64,
        admin: Address,
        token_mint_address: Address,
        usd_mint: Address,
        softcap_amount: u64,
        hardcap_amount: u64,
        levels: [Level; 7],
        price_scale: u64,
        start_time: u64,
        end_time: u64,
    ) -> (r: Result<Presale, PresaleError>)
        ensures
            r is Err <==> (softcap_amount > hardcap_amount || price_scale == 0),
            r is Err ==> r->Err_0 == PresaleError::NotAllowed,
            r matches Ok(p) ==> {
                &&& p.wf()
                &&& p.seed == seed && p.admin == admin
                &&& p.token_mint_address == token_mint_address && p.usd_mint == usd_mint
                &&& p.softcap_amount == softcap_amount && p.hardcap_amount == hardcap_amount
                &&& p.deposit_token_amount == 0
                &&& p.raised_amount == 0 && p.claimed_amount == 0 && p.refunded_amount == 0
                &&& p.price_scale == price_scale
                &&& p.start_time == start_time && p.end_time == end_time
                &&& !p.is_live && !p.is_ended && p.current_level == 0
                &&& p.sold_token_amount == 0
                &&& !p.is_soft_capped && !p.is_hard_capped
                &&& !p.is_token_withdrawn && !p.is_usd_withdrawn
                &&& forall|i: int| 0 <= i < LEVEL_COUNT ==> #[trigger] p.levels@[i] == (Level {
                    tokens_sold: 0,
                    ..levels@[i]
                })
            },
    {
        if softcap_amount > hardcap_amount || price_scale == 0 {
            return Err(PresaleError::NotAllowed);
        }
        let mut fresh = levels;
        let mut i: usize = 0;
        while i < LEVEL_COUNT
            invariant
                i <= LEVEL_COUNT,
                fresh@.len() == LEVEL_COUNT,
                forall|j: int| 0 <= j < i ==> #[trigger] fresh@[j] == (Level {
                    tokens_sold: 0,
                    ..levels@[j]
                }),
            decreases LEVEL_COUNT - i,
        {
            let l = levels[i];
            fresh[i] = Level { tokens_sold: 0, ..l };
            i = i + 1;
        }
        proof {
            lemma_sold_sum_zero(fresh@);
        }
        Ok(Presale {
            seed,
            admin,
            is_live: false,
            is_ended: false,
            current_level: 0,
            levels: fresh,
            sold_token_amount: 0,
            token_mint_address,
            usd_mint,
            softcap_amount,
            hardcap_amount,
            deposit_token_amount: 0,
            price_scale,
            start_time,
            end_time,
            is_soft_capped: false,
            is_hard_capped: false,
            is_token_withdrawn: false,
            is_usd_withdrawn: false,
            raised_amount: 0,
            claimed_amount: 0,
            refunded_amount: 0,
        })
    }
}

impl Presale {
    /// Adds `amount` tokens to the inventory in custody. Admin only.
    pub fn deposit_token(&mut self, caller: &Address, amount: u64) -> (r: Result<(), PresaleError>)
        requires
            old(self).wf(),
        ensures
            final(self).wf(),
            r is Ok <==> (*caller == old(self).admin && old(self).deposit_token_amount + amount
                <= u64::MAX),
            *caller != old(self).admin ==> r == Err::<(), PresaleError>(PresaleError::Unauthorized),
            *caller == old(self).admin && old(self).deposit_token_amount + amount > u64::MAX ==> r
                == Err::<(), PresaleError>(PresaleError::MathOverflow),
            r is Ok ==> *final(self) == (Presale {
                deposit_token_amount: (old(self).deposit_token_amount + amount) as u64,
                ..*old(self)
            }),
            r is Err ==> *final(self) == *old(self),
    {
        if !caller.same_as(&self.admin) {
            return Err(PresaleError::Unauthorized);
        }
        match self.deposit_token_amount.checked_add(amount) {
            Some(total) => {
                self.deposit_token_amount = total;
                Ok(())
            },
            None => Err(PresaleError::MathOverflow),
        }
    }

    /// Opens the sale for purchases at time `now`. Admin only; the sale must not be live,
    /// must not have been ended, and its window must not have elapsed.
    pub fn start_presale(&mut self, caller: &Address, now: u64) -> (r: Result<(), PresaleError>)
        requires
            old(self).wf(),
        ensures
            final(self).wf(),
            r == (if *caller != old(self).admin {
                Err(PresaleError::Unauthorized)
            } else if old(self).is_live {
                Err(PresaleError::AlreadyLive)
            } else if old(self).has_ended(now) {
                Err(PresaleError::PresaleEnded)
            } else {
                Ok(())
            }),
            r is Ok ==> *final(self) == (Presale { is_live: true, start_time: now, ..*old(self) }),
            r is Err ==> *final(self) == *old(self),
    {
        if !caller.same_as(&self.admin) {
            return Err(PresaleError::Unauthorized);
        }
        if self.is_live {
            return Err(PresaleError::AlreadyLive);
        }
        if self.ended(now) {
            return Err(PresaleError::PresaleEnded);
        }
        self.is_live = true;
        self.start_time = now;
        Ok(())
    }

    /// Ends the sale for good. Admin only; the sale must be live, or its window elapsed,
    /// and must not have been ended already.
    pub fn end_presale(&mut self, caller: &Address, now: u64) -> (r: Result<(), PresaleError>)
        requires
            old(self).wf(),
        ensures
            final(self).wf(),
            r == (if *caller != old(self).admin {
                Err(PresaleError::Unauthorized)
            } else if old(self).is_ended || (!old(self).is_live && now < old(self).end_time) {
                Err(PresaleError::PresaleEnded)
            } else {
                Ok(())
            }),
            r is Ok ==> *final(self) == (Presale { is_live: false, is_ended: true, ..*old(self) }),
            r is Err ==> *final(self) == *old(self),
    {
        if !caller.same_as(&self.admin) {
            return Err(PresaleError::Unauthorized);
        }
        if self.is_ended || (!self.is_live && now < self.end_time) {
            return Err(PresaleError::PresaleEnded);
        }
        self.is_live = false;
        self.is_ended = true;
        Ok(())
    }

    /// Marks the unsold inventory as taken back by the admin, once the sale is over,
    /// and returns its amount: what was deposited less what buyers will claim.
    pub fn withdraw_token(&mut self, caller: &Address, now: u64) -> (r: Result<u64, PresaleError>)
        requires
            old(self).wf(),
        ensures
            final(self).wf(),
            r == (if *caller != old(self).admin {
                Err(PresaleError::Unauthorized)
            } else if !old(self).has_ended(now) {
                Err(PresaleError::PresaleNotEnded)
            } else if old(self).is_token_withdrawn {
                Err(PresaleError::AlreadyMarked)
            } else {
                Ok(old(self).residual_inventory() as u64)
            }),
            r is Ok ==> *final(self) == (Presale { is_token_withdrawn: true, ..*old(self) }),
            r is Err ==> *final(self) == *old(self),
    {
        if !caller.same_as(&self.admin) {
            return Err(PresaleError::Unauthorized);
        }
        if !self.ended(now) {
            return Err(PresaleError::PresaleNotEnded);
        }
        if self.is_token_withdrawn {
            return Err(PresaleError::AlreadyMarked);
        }
        let amount = if self.sold_token_amount >= self.softcap_amount {
            self.deposit_token_amount - self.sold_token_amount
        } else {
            self.deposit_token_amount
        };
        self.is_token_withdrawn = true;
        Ok(amount)
    }

    /// Marks the raised payments as taken by the admin. Allowed once the sale is over
    /// and only if it reached its soft cap (else the payments go back to the buyers).
    pub fn withdraw_usd(&mut self, caller: &Address, now: u64) -> (r: Result<(), PresaleError>)
        requires
            old(self).wf(),
        ensures
            final(self).wf(),
            r == (if *caller != old(self).admin {
                Err(PresaleError::Unauthorized)
            } else if !old(self).has_ended(now) {
                Err(PresaleError::PresaleNotEnded)
            } else if !old(self).reached_soft_cap() {
                Err(PresaleError::SoftCapNotReached)
            } else if old(self).is_usd_withdrawn {
                Err(PresaleError::AlreadyMarked)
            } else {
                Ok(())
            }),
            r is Ok ==> *final(self) == (Presale { is_usd_withdrawn: true, ..*old(self) }),
            r is Err ==> *final(self) == *old(self),
    {
        if !caller.same_as(&self.admin) {
            return Err(PresaleError::Unauthorized);
        }
        if !self.ended(now) {
            return Err(PresaleError::PresaleNotEnded);
        }
        if self.sold_token_amount < self.softcap_amount {
            return Err(PresaleError::SoftCapNotReached);
        }
        if self.is_usd_withdrawn {
            return Err(PresaleError::AlreadyMarked);
        }
        self.is_usd_withdrawn = true;
        Ok(())
    }

    /// Decides whether the sale record may be destroyed: admin only, the sale is not live
    /// and is over, and custody holds nothing more for the admin or any buyer.
    pub fn close_presale(&self, caller: &Address, now: u64) -> (r: Result<(), PresaleError>)
        ensures
            r == (if *caller != self.admin {
                Err(PresaleError::Unauthorized)
            } else if self.is_live || !self.has_ended(now) {
                Err(PresaleError::PresaleNotEnded)
            } else if !self.custody_settled() {
                Err(PresaleError::NotAllowed)
            } else {
                Ok(())
            }),
    {
        if !caller.same_as(&self.admin) {
            return Err(PresaleError::Unauthorized);
        }
        if self.is_live || !self.ended(now) {
            return Err(PresaleError::PresaleNotEnded);
        }
        let settled = if self.sold_token_amount >= self.softcap_amount {
            self.claimed_amount >= self.sold_token_amount && self.is_usd_withdrawn
        } else {
            self.refunded_amount >= self.raised_amount
        };
        if !self.is_token_withdrawn || !settled {
            return Err(PresaleError::NotAllowed);
        }
        Ok(())
    }
}

} // verus!
