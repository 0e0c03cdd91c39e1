use vstd::prelude::*;
use crate::address::Address;
use crate::errors::PresaleError;
use crate::presale::Presale;

verus! {

/// One buyer's record in one sale.
#[derive(Clone, Copy, Debug, PartialEq, Eq, Structural)]
pub struct UserInfo {
    /// The buyer that owns the record.
    pub buyer: Address,
    /// Payment spent so far.
    pub buy_quote_amount: u64,
    /// Tokens allocated so far.
    pub buy_token_amount: u64,
    /// The buyer received its tokens.
    pub has_claimed_token: bool,
    /// The buyer received its payment back.
    pub has_claimed_refund: bool,
    /// Time of the latest purchase.
    pub buy_time: u64,
    /// Tokens handed out at the claim.
    pub claim_amount: u64,
    /// Time of the claim or refund.
    pub claim_time: u64,
}

impl UserInfo {
    /// A record settles at most one way.
    pub open spec fn wf(&self) -> bool {
        !(self.has_claimed_token && self.has_claimed_refund)
    }

    /// Whether the buyer already claimed tokens or took a refund.
    pub open spec fn is_settled(&self) -> bool {
        self.has_claimed_token || self.has_claimed_refund
    }

    /// Checks the invariant on a record read from storage.
    pub fn is_well_formed(&self) -> (r: bool)
        ensures
            r == self.wf(),
    {
        !(self.has_claimed_token && self.has_claimed_refund)
    }

    /// The record holds no contribution yet, so any buyer may take it.
    pub open spec fn is_fresh(&self) -> bool {
        self.buy_quote_amount == 0 && self.buy_token_amount == 0
    }

    pub fn fresh(&self) -> (r: bool)
        ensures
            r == self.is_fresh(),
    {
        self.buy_quote_amount == 0 && self.buy_token_amount == 0
    }

    /// The empty record of `buyer`, before any purchase.
    pub fn init_user(buyer: Address) -> (r: UserInfo)
        ensures
            r == (UserInfo {
                buyer,
                buy_quote_amount: 0,
                buy_token_amount: 0,
                has_claimed_token: false,
                has_claimed_refund: false,
                buy_time: 0,
                claim_amount: 0,
                claim_time: 0,
            }),
            r.wf(),
    {
        UserInfo {
            buyer,
            buy_quote_amount: 0,
            buy_token_amount: 0,
            has_claimed_token: false,
            has_claimed_refund: false,
            buy_time: 0,
            claim_amount: 0,
            claim_time: 0,
        }
    }

    /// Settles the record by handing the buyer its tokens; returns how many to transfer and
    /// counts them as claimed in the sale. Refused once the record is settled either way;
    /// otherwise only for the record's owner, once the sale is over and reached its soft cap.
    pub fn claim_token(&mut self, presale: &mut Presale, caller: &Address, now: u64) -> (r: Result<
        u64,
        PresaleError,
    >)
        requires
            old(self).wf(),
            old(presale).wf(),
        ensures
            final(self).wf(),
            final(presale).wf(),
            r == claim_result(*old(self), *old(presale), *caller, now),
            r is Ok ==> *final(self) == after_claim(*old(self), now) && *final(presale) == (Presale {
                claimed_amount: (old(presale).claimed_amount + old(self).buy_token_amount) as u64,
                ..*old(presale)
            }),
            r is Err ==> *final(self) == *old(self) && *final(presale) == *old(presale),
    {
        if self.has_claimed_token || self.has_claimed_refund {
            return Err(PresaleError::AlreadyClaimed);
        }
        if !caller.same_as(&self.buyer) {
            return Err(PresaleError::Unauthorized);
        }
        if !presale.ended(now) {
            return Err(PresaleError::PresaleNotEnded);
        }
        if presale.sold_token_amount < presale.softcap_amount {
            return Err(PresaleError::SoftCapNotReached);
        }
        let total = match presale.claimed_amount.checked_add(self.buy_token_amount) {
            Some(t) => t,
            None => return Err(PresaleError::MathOverflow),
        };
        presale.claimed_amount = total;
        self.has_claimed_token = true;
        self.claim_amount = self.buy_token_amount;
        self.claim_time = now;
        Ok(self.buy_token_amount)
    }

    /// Settles the record by giving the buyer its payment back; returns how much to transfer
    /// and counts it as refunded in the sale. Refused once the record is settled either way;
    /// otherwise only for the record's owner, once the sale is over and missed its soft cap.
    pub fn claim_refund(&mut self, presale: &mut Presale, caller: &Address, now: u64) -> (r: Result<
        u64,
        PresaleError,
    >)
        requires
            old(self).wf(),
            old(presale).wf(),
        ensures
            final(self).wf(),
            final(presale).wf(),
            r == refund_result(*old(self), *old(presale), *caller, now),
            r is Ok ==> *final(self) == after_refund(*old(self), now) && *final(presale) == (Presale {
                refunded_amount: (old(presale).refunded_amount + old(self).buy_quote_amount) as u64,
                ..*old(presale)
            }),
            r is Err ==> *final(self) == *old(self) && *final(presale) == *old(presale),
    {
        if self.has_claimed_token || self.has_claimed_refund {
            return Err(PresaleError::AlreadyClaimed);
        }
        if !caller.same_as(&self.buyer) {
            return Err(PresaleError::Unauthorized);
        }
        if !presale.ended(now) {
            return Err(PresaleError::PresaleNotEnded);
        }
        if presale.sold_token_amount >= presale.softcap_amount {
            return Err(PresaleError::SoftCapReached);
        }
        let total = match presale.refunded_amount.checked_add(self.buy_quote_amount) {
            Some(t) => t,
            None => return Err(PresaleError::MathOverflow),
        };
        presale.refunded_amount = total;
        self.has_claimed_refund = true;
        self.claim_time = now;
        Ok(self.buy_quote_amount)
    }
}

/// What a claim by `caller` at time `now` returns: the tokens to hand out, or why not.
pub open spec fn claim_result(u: UserInfo, p: Presale, caller: Address, now: u64) -> Result<
    u64,
    PresaleError,
> {
    if u.is_settled() {
        Err(PresaleError::AlreadyClaimed)
    } else if caller != u.buyer {
        Err(PresaleError::Unauthorized)
    } else if !p.has_ended(now) {
        Err(PresaleError::PresaleNotEnded)
    } else if !p.reached_soft_cap() {
        Err(PresaleError::SoftCapNotReached)
    } else if p.claimed_amount + u.buy_token_amount > u64::MAX {
        Err(PresaleError::MathOverflow)
    } else {
        Ok(u.buy_token_amount)
    }
}

/// What a refund by `caller` at time `now` returns: the payment to give back, or why not.
pub open spec fn refund_result(u: UserInfo, p: Presale, caller: Address, now: u64) -> Result<
    u64,
    PresaleError,
> {
    if u.is_settled() {
        Err(PresaleError::AlreadyClaimed)
    } else if caller != u.buyer {
        Err(PresaleError::Unauthorized)
    } else if !p.has_ended(now) {
        Err(PresaleError::PresaleNotEnded)
    } else if p.reached_soft_cap() {
        Err(PresaleError::SoftCapReached)
    } else if p.refunded_amount + u.buy_quote_amount > u64::MAX {
        Err(PresaleError::MathOverflow)
    } else {
        Ok(u.buy_quote_amount)
    }
}

/// The record after a successful claim.
pub open spec fn after_claim(u: UserInfo, now: u64) -> UserInfo {
    UserInfo { has_claimed_token: true, claim_amount: u.buy_token_amount, claim_time: now, ..u }
}

/// The record after a successful refund.
pub open spec fn after_refund(u: UserInfo, now: u64) -> UserInfo {
    UserInfo { has_claimed_refund: true, claim_time: now, ..u }
}

/// Claim and refund are single-shot and exclusive: once either succeeded for a record,
/// every later claim and every later refund on it fails with `AlreadyClaimed`, whoever
/// calls and whatever the sale's state, and the record never holds both marks.
pub proof fn lemma_settlement_is_single_shot(
    u: UserInfo,
    p: Presale,
    caller: Address,
    now: u64,
    later: Presale,
    later_caller: Address,
    later_now: u64,
)
    requires
        u.wf(),
    ensures
        claim_result(u, p, caller, now) is Ok ==> {
            let v = after_claim(u, now);
            &&& v.wf()
            &&& claim_result(v, later, later_caller, later_now) == Err::<u64, PresaleError>(
                PresaleError::AlreadyClaimed,
            )
            &&& refund_result(v, later, later_caller, later_now) == Err::<u64, PresaleError>(
                PresaleError::AlreadyClaimed,
            )
        },
        refund_result(u, p, caller, now) is Ok ==> {
            let v = after_refund(u, now);
            &&& v.wf()
            &&& claim_result(v, later, later_caller, later_now) == Err::<u64, PresaleError>(
                PresaleError::AlreadyClaimed,
            )
            &&& refund_result(v, later, later_caller, later_now) == Err::<u64, PresaleError>(
                PresaleError::AlreadyClaimed,
            )
        },
{
}

} // verus!
