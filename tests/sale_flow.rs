use presalee::address::Address;
use presalee::engine::Purchase;
use presalee::errors::{ErrorKind, PresaleError};
use presalee::level::Level;
use presalee::presale::Presale;
use presalee::user::UserInfo;

const SCALE: u64 = 1_000_000;
const ONE_TOKEN: u64 = 1_000_000 * SCALE;

fn addr(n: u64) -> Address {
    Address::new(n, 0, 0, 0)
}

fn admin() -> Address {
    addr(1)
}

fn ladder(tiers: &[(u64, u64)]) -> [Level; 7] {
    let mut levels = [Level::new(0, ONE_TOKEN, 0); 7];
    for (i, (capacity, price)) in tiers.iter().enumerate() {
        levels[i] = Level::new(*capacity, *price, 0);
    }
    levels
}

fn sale(levels: [Level; 7], softcap: u64, hardcap: u64, deposit: u64) -> Presale {
    let mut p = Presale::init_presale(7, admin(), addr(10), addr(11), softcap, hardcap, levels, SCALE, 0, 1_000)
        .unwrap();
    p.deposit_token(&admin(), deposit).unwrap();
    p
}

fn live_sale(levels: [Level; 7], softcap: u64, hardcap: u64, deposit: u64) -> Presale {
    let mut p = sale(levels, softcap, hardcap, deposit);
    p.start_presale(&admin(), 10).unwrap();
    p
}

fn single_tier_sale() -> Presale {
    live_sale(ladder(&[(100, ONE_TOKEN)]), 50, 100, 100)
}

#[test]
fn first_purchase_reaches_soft_cap() {
    let mut p = single_tier_sale();
    let mut u = UserInfo::init_user(addr(2));
    let r = p.buy_tokens(&mut u, &addr(2), 50_000_000, 20).unwrap();
    assert_eq!(r, Purchase { tokens_out: 50, payment_spent: 50_000_000 });
    assert_eq!(p.sold_token_amount, 50);
    assert!(p.is_soft_capped);
    assert!(!p.is_hard_capped);
    assert_eq!(u.buy_token_amount, 50);
    assert_eq!(u.buy_quote_amount, 50_000_000);
    assert_eq!(u.buy_time, 20);
}

#[test]
fn second_purchase_hits_hard_cap_and_charges_only_spent() {
    let mut p = single_tier_sale();
    let mut u = UserInfo::init_user(addr(2));
    p.buy_tokens(&mut u, &addr(2), 50_000_000, 20).unwrap();
    let r = p.buy_tokens(&mut u, &addr(2), 60_000_000, 21).unwrap();
    assert_eq!(r, Purchase { tokens_out: 50, payment_spent: 50_000_000 });
    assert_eq!(p.sold_token_amount, 100);
    assert!(p.is_hard_capped);
    assert_eq!(p.levels[0].tokens_sold, 100);
    assert_eq!(p.current_level, 1);
    assert_eq!(u.buy_token_amount, 100);
    assert_eq!(u.buy_quote_amount, 100_000_000);
}

#[test]
fn purchase_after_window_is_a_lifecycle_violation() {
    let mut p = single_tier_sale();
    let mut u = UserInfo::init_user(addr(2));
    let e = p.buy_tokens(&mut u, &addr(2), 1_000_000, 1_000).unwrap_err();
    assert_eq!(e, PresaleError::PresaleEnded);
    assert_eq!(e.kind(), ErrorKind::LifecycleViolation);
    let mut idle = sale(ladder(&[(100, ONE_TOKEN)]), 50, 100, 100);
    let e = idle.buy_tokens(&mut u, &addr(2), 1_000_000, 5_000).unwrap_err();
    assert_eq!(e, PresaleError::PresaleEnded);
    assert_eq!(e.kind(), ErrorKind::LifecycleViolation);
    assert_eq!(p.sold_token_amount, 0);
    assert_eq!(u, UserInfo::init_user(addr(2)));
}

#[test]
fn missed_soft_cap_refunds_once() {
    let mut p = single_tier_sale();
    let mut u = UserInfo::init_user(addr(2));
    p.buy_tokens(&mut u, &addr(2), 40_000_000, 20).unwrap();
    assert_eq!(p.sold_token_amount, 40);
    p.end_presale(&admin(), 30).unwrap();
    let e = u.claim_token(&mut p, &addr(2), 31).unwrap_err();
    assert_eq!(e, PresaleError::SoftCapNotReached);
    assert_eq!(e.kind(), ErrorKind::CapUnmet);
    assert_eq!(u.claim_refund(&mut p, &addr(2), 32), Ok(40_000_000));
    assert!(u.has_claimed_refund);
    let e = u.claim_refund(&mut p, &addr(2), 33).unwrap_err();
    assert_eq!(e, PresaleError::AlreadyClaimed);
    assert_eq!(e.kind(), ErrorKind::AlreadySettled);
}

#[test]
fn claim_is_single_shot_and_excludes_refund() {
    let mut p = single_tier_sale();
    let mut u = UserInfo::init_user(addr(2));
    p.buy_tokens(&mut u, &addr(2), 60_000_000, 20).unwrap();
    p.end_presale(&admin(), 30).unwrap();
    assert_eq!(u.claim_token(&mut p, &addr(2), 31), Ok(60));
    assert!(u.has_claimed_token);
    assert_eq!(u.claim_amount, 60);
    assert_eq!(u.claim_time, 31);
    assert_eq!(u.claim_token(&mut p, &addr(2), 32), Err(PresaleError::AlreadyClaimed));
    assert_eq!(u.claim_refund(&mut p, &addr(2), 33), Err(PresaleError::AlreadyClaimed));
    assert!(!u.has_claimed_refund);
}

#[test]
fn refund_excludes_later_claim() {
    let mut p = single_tier_sale();
    let mut u = UserInfo::init_user(addr(2));
    p.buy_tokens(&mut u, &addr(2), 10_000_000, 20).unwrap();
    p.end_presale(&admin(), 30).unwrap();
    assert_eq!(u.claim_refund(&mut p, &addr(2), 31), Ok(10_000_000));
    assert_eq!(u.claim_token(&mut p, &addr(2), 32), Err(PresaleError::AlreadyClaimed));
}

#[test]
fn claim_before_end_and_by_stranger_fail() {
    let mut p = single_tier_sale();
    let mut u = UserInfo::init_user(addr(2));
    p.buy_tokens(&mut u, &addr(2), 60_000_000, 20).unwrap();
    assert_eq!(u.claim_token(&mut p, &addr(2), 30), Err(PresaleError::PresaleNotEnded));
    assert_eq!(u.claim_token(&mut p, &addr(3), 2_000), Err(PresaleError::Unauthorized));
    assert_eq!(u.claim_refund(&mut p, &addr(2), 2_000), Err(PresaleError::SoftCapReached));
    assert_eq!(u.claim_token(&mut p, &addr(2), 2_000), Ok(60));
}

#[test]
fn totals_balance_over_tiers_and_buyers() {
    let mut p = live_sale(ladder(&[(100, ONE_TOKEN), (100, 2 * ONE_TOKEN), (50, 4 * ONE_TOKEN)]), 10, 250, 250);
    let mut a = UserInfo::init_user(addr(2));
    let mut b = UserInfo::init_user(addr(3));
    p.buy_tokens(&mut a, &addr(2), 70_000_000, 20).unwrap();
    p.buy_tokens(&mut b, &addr(3), 90_000_000, 21).unwrap();
    p.buy_tokens(&mut a, &addr(2), 100_000_000, 22).unwrap();
    let tiers: u64 = p.levels.iter().map(|l| l.tokens_sold).sum();
    assert_eq!(p.sold_token_amount, tiers);
    assert_eq!(p.sold_token_amount, a.buy_token_amount + b.buy_token_amount);
    assert_eq!(a.buy_token_amount, 70 + 50);
    assert_eq!(b.buy_token_amount, 30 + 30);
    assert_eq!(p.sold_token_amount, 180);
    assert_eq!(p.levels[1].tokens_sold, 80);
    assert_eq!(p.current_level, 1);
}

#[test]
fn walk_crosses_tiers_at_their_prices() {
    let mut p = live_sale(ladder(&[(100, ONE_TOKEN), (100, 2 * ONE_TOKEN)]), 10, 200, 200);
    let mut u = UserInfo::init_user(addr(2));
    let r = p.buy_tokens(&mut u, &addr(2), 150_000_000, 20).unwrap();
    assert_eq!(r, Purchase { tokens_out: 125, payment_spent: 150_000_000 });
    assert_eq!(p.levels[0].tokens_sold, 100);
    assert_eq!(p.levels[1].tokens_sold, 25);
    assert_eq!(p.current_level, 1);
    let cost: u64 = p.levels.iter().map(|l| l.tokens_sold * (l.price / SCALE)).sum();
    assert_eq!(cost, u.buy_quote_amount);
}

#[test]
fn tier_pointer_and_flags_only_move_forward() {
    let mut p = live_sale(ladder(&[(10, ONE_TOKEN), (10, ONE_TOKEN), (10, ONE_TOKEN)]), 5, 30, 30);
    let mut u = UserInfo::init_user(addr(2));
    let mut last_level = p.current_level;
    let mut soft = p.is_soft_capped;
    for _ in 0..6 {
        p.buy_tokens(&mut u, &addr(2), 5_000_000, 20).unwrap();
        assert!(p.current_level >= last_level);
        assert!(!soft || p.is_soft_capped);
        last_level = p.current_level;
        soft = p.is_soft_capped;
    }
    assert_eq!(p.current_level, 3);
    assert!(p.is_hard_capped);
    assert_eq!(p.sold_token_amount, 30);
}

#[test]
fn rounding_stays_within_one_unit_per_step() {
    let mut p = live_sale(ladder(&[(1_000, 3 * SCALE)]), 0, 1_000, 1_000);
    let mut u = UserInfo::init_user(addr(2));
    let r = p.buy_tokens(&mut u, &addr(2), 9, 20).unwrap();
    assert_eq!(r.tokens_out, 3);
    assert_eq!(r.payment_spent, 9);
    let e = p.buy_tokens(&mut u, &addr(2), 10, 20).unwrap_err();
    assert_eq!(e, PresaleError::ExactPaymentRequired);
}

#[test]
fn hard_cap_below_request_is_refused_whole() {
    let mut p = live_sale(ladder(&[(100, ONE_TOKEN)]), 10, 80, 100);
    let mut u = UserInfo::init_user(addr(2));
    let e = p.buy_tokens(&mut u, &addr(2), 90_000_000, 20).unwrap_err();
    assert_eq!(e, PresaleError::HardCapped);
    assert_eq!(e.kind(), ErrorKind::CapViolation);
    assert_eq!(p.sold_token_amount, 0);
    assert_eq!(p.levels[0].tokens_sold, 0);
    assert_eq!(u.buy_quote_amount, 0);
}

#[test]
fn deposit_limits_sales() {
    let mut p = live_sale(ladder(&[(100, ONE_TOKEN)]), 10, 100, 60);
    let mut u = UserInfo::init_user(addr(2));
    let e = p.buy_tokens(&mut u, &addr(2), 70_000_000, 20).unwrap_err();
    assert_eq!(e, PresaleError::ExceedsDepositAmount);
    p.deposit_token(&admin(), 40).unwrap();
    assert_eq!(p.deposit_token_amount, 100);
    assert_eq!(p.buy_tokens(&mut u, &addr(2), 70_000_000, 20).unwrap().tokens_out, 70);
}

#[test]
fn exhausted_ladder_without_hard_cap_refuses_payment() {
    let mut p = live_sale(ladder(&[(100, ONE_TOKEN)]), 10, 200, 200);
    let mut u = UserInfo::init_user(addr(2));
    let e = p.buy_tokens(&mut u, &addr(2), 150_000_000, 20).unwrap_err();
    assert_eq!(e, PresaleError::ExactPaymentRequired);
    assert_eq!(e.kind(), ErrorKind::InventoryExhausted);
    assert_eq!(p.sold_token_amount, 0);
}

#[test]
fn zero_price_and_overflow_are_arithmetic_faults() {
    let mut p = live_sale(ladder(&[(100, 0)]), 10, 100, 100);
    let mut u = UserInfo::init_user(addr(2));
    let e = p.buy_tokens(&mut u, &addr(2), 5, 20).unwrap_err();
    assert_eq!(e, PresaleError::CalculationOverflow);
    assert_eq!(e.kind(), ErrorKind::ArithmeticFault);
    let mut q = single_tier_sale();
    let e = q.buy_tokens(&mut u, &addr(2), u64::MAX, 20).unwrap_err();
    assert_eq!(e, PresaleError::CalculationOverflow);
}

#[test]
fn purchase_needs_live_sale_and_payment() {
    let mut p = sale(ladder(&[(100, ONE_TOKEN)]), 50, 100, 100);
    let mut u = UserInfo::init_user(addr(2));
    assert_eq!(p.buy_tokens(&mut u, &addr(2), 1_000_000, 20), Err(PresaleError::PresaleNotStarted));
    p.start_presale(&admin(), 10).unwrap();
    assert_eq!(p.buy_tokens(&mut u, &addr(2), 0, 20), Err(PresaleError::NotAllowed));
}

#[test]
fn record_belongs_to_its_buyer() {
    let mut p = single_tier_sale();
    let mut u = UserInfo::init_user(addr(2));
    p.buy_tokens(&mut u, &addr(2), 10_000_000, 20).unwrap();
    assert_eq!(p.buy_tokens(&mut u, &addr(3), 10_000_000, 20), Err(PresaleError::Unauthorized));
    assert_eq!(u.buy_token_amount, 10);
}

#[test]
fn buyer_totals_must_fit() {
    let mut p = single_tier_sale();
    let mut u = UserInfo::init_user(addr(2));
    u.buy_quote_amount = u64::MAX;
    assert_eq!(p.buy_tokens(&mut u, &addr(2), 1_000_000, 20), Err(PresaleError::MathOverflow));
    assert_eq!(p.sold_token_amount, 0);
}

#[test]
fn init_checks_caps_and_scale() {
    let levels = ladder(&[(100, ONE_TOKEN)]);
    let r = Presale::init_presale(1, admin(), addr(10), addr(11), 101, 100, levels, SCALE, 0, 10);
    assert_eq!(r.unwrap_err(), PresaleError::NotAllowed);
    let r = Presale::init_presale(1, admin(), addr(10), addr(11), 1, 100, levels, 0, 0, 10);
    assert_eq!(r.unwrap_err(), PresaleError::NotAllowed);
    let mut dirty = levels;
    dirty[0].tokens_sold = 40;
    let p = Presale::init_presale(1, admin(), addr(10), addr(11), 1, 100, dirty, SCALE, 0, 10).unwrap();
    assert_eq!(p.deposit_token_amount, 0);
    assert_eq!(p.raised_amount, 0);
    assert_eq!(p.claimed_amount, 0);
    assert_eq!(p.refunded_amount, 0);
    assert_eq!(p.levels[0].tokens_sold, 0);
    assert_eq!(p.sold_token_amount, 0);
    assert!(!p.is_live);
    assert_eq!(p.current_level, 0);
}

#[test]
fn start_rules() {
    let mut p = sale(ladder(&[(100, ONE_TOKEN)]), 50, 100, 100);
    assert_eq!(p.start_presale(&addr(5), 10), Err(PresaleError::Unauthorized));
    assert_eq!(p.start_presale(&admin(), 1_000), Err(PresaleError::PresaleEnded));
    assert_eq!(p.start_presale(&admin(), 10), Ok(()));
    assert_eq!(p.start_time, 10);
    assert!(p.is_live);
    assert_eq!(p.start_presale(&admin(), 11), Err(PresaleError::AlreadyLive));
    p.end_presale(&admin(), 12).unwrap();
    assert_eq!(p.start_presale(&admin(), 13), Err(PresaleError::PresaleEnded));
}

#[test]
fn end_rules() {
    let mut p = sale(ladder(&[(100, ONE_TOKEN)]), 50, 100, 100);
    assert_eq!(p.end_presale(&admin(), 10), Err(PresaleError::PresaleEnded));
    assert_eq!(p.end_presale(&admin(), 1_000), Ok(()));
    assert_eq!(p.end_presale(&admin(), 1_001), Err(PresaleError::PresaleEnded));
    let mut q = single_tier_sale();
    assert_eq!(q.end_presale(&addr(9), 20), Err(PresaleError::Unauthorized));
    assert_eq!(q.end_presale(&admin(), 20), Ok(()));
    assert!(!q.is_live);
    assert!(q.is_ended);
}

#[test]
fn deposit_rules() {
    let mut p = sale(ladder(&[(100, ONE_TOKEN)]), 50, 100, 100);
    assert_eq!(p.deposit_token(&addr(4), 5), Err(PresaleError::Unauthorized));
    assert_eq!(p.deposit_token(&admin(), u64::MAX), Err(PresaleError::MathOverflow));
    assert_eq!(p.deposit_token_amount, 100);
}

#[test]
fn withdrawals_and_close() {
    let mut p = single_tier_sale();
    let mut u = UserInfo::init_user(addr(2));
    p.buy_tokens(&mut u, &addr(2), 60_000_000, 20).unwrap();
    assert_eq!(p.withdraw_token(&admin(), 30), Err(PresaleError::PresaleNotEnded));
    assert_eq!(p.close_presale(&admin(), 30), Err(PresaleError::PresaleNotEnded));
    p.end_presale(&admin(), 30).unwrap();
    assert_eq!(p.withdraw_token(&addr(2), 31), Err(PresaleError::Unauthorized));
    assert_eq!(p.close_presale(&admin(), 31), Err(PresaleError::NotAllowed));
    assert_eq!(p.withdraw_token(&admin(), 31), Ok(40));
    assert_eq!(p.withdraw_token(&admin(), 32), Err(PresaleError::AlreadyMarked));
    assert_eq!(p.close_presale(&admin(), 32), Err(PresaleError::NotAllowed));
    assert_eq!(p.withdraw_usd(&admin(), 32), Ok(()));
    assert_eq!(p.withdraw_usd(&admin(), 33), Err(PresaleError::AlreadyMarked));
    assert_eq!(p.close_presale(&addr(2), 33), Err(PresaleError::Unauthorized));
    assert_eq!(p.close_presale(&admin(), 33), Err(PresaleError::NotAllowed));
    assert_eq!(u.claim_token(&mut p, &addr(2), 34), Ok(60));
    assert_eq!(p.claimed_amount, 60);
    assert_eq!(p.close_presale(&admin(), 35), Ok(()));
}

#[test]
fn failed_sale_returns_whole_deposit() {
    let mut p = single_tier_sale();
    let mut u = UserInfo::init_user(addr(2));
    p.buy_tokens(&mut u, &addr(2), 40_000_000, 20).unwrap();
    p.end_presale(&admin(), 30).unwrap();
    assert_eq!(p.withdraw_usd(&admin(), 31), Err(PresaleError::SoftCapNotReached));
    assert_eq!(p.withdraw_token(&admin(), 31), Ok(100));
    assert_eq!(p.close_presale(&admin(), 32), Err(PresaleError::NotAllowed));
    assert_eq!(u.claim_refund(&mut p, &addr(2), 33), Ok(40_000_000));
    assert_eq!(p.refunded_amount, 40_000_000);
    assert_eq!(p.raised_amount, 40_000_000);
    assert_eq!(p.close_presale(&admin(), 34), Ok(()));
}

#[test]
fn close_waits_for_every_buyer() {
    let mut p = single_tier_sale();
    let mut a = UserInfo::init_user(addr(2));
    let mut b = UserInfo::init_user(addr(3));
    p.buy_tokens(&mut a, &addr(2), 30_000_000, 20).unwrap();
    p.buy_tokens(&mut b, &addr(3), 40_000_000, 21).unwrap();
    p.end_presale(&admin(), 30).unwrap();
    p.withdraw_token(&admin(), 31).unwrap();
    p.withdraw_usd(&admin(), 31).unwrap();
    assert_eq!(a.claim_token(&mut p, &addr(2), 32), Ok(30));
    assert_eq!(p.close_presale(&admin(), 33), Err(PresaleError::NotAllowed));
    assert_eq!(b.claim_token(&mut p, &addr(3), 34), Ok(40));
    assert_eq!(p.claimed_amount, p.sold_token_amount);
    assert_eq!(p.close_presale(&admin(), 35), Ok(()));
}

#[test]
fn new_sale_holds_no_inventory_until_deposit() {
    let mut p = Presale::init_presale(1, admin(), addr(10), addr(11), 10, 100, ladder(&[(100, ONE_TOKEN)]), SCALE, 0, 1_000)
        .unwrap();
    assert_eq!(p.deposit_token_amount, 0);
    p.start_presale(&admin(), 10).unwrap();
    let mut u = UserInfo::init_user(addr(2));
    assert_eq!(p.buy_tokens(&mut u, &addr(2), 10_000_000, 20), Err(PresaleError::ExceedsDepositAmount));
    p.deposit_token(&admin(), 10).unwrap();
    assert_eq!(p.buy_tokens(&mut u, &addr(2), 10_000_000, 20).unwrap().tokens_out, 10);
}

#[test]
fn settled_record_refuses_anyone() {
    let mut p = single_tier_sale();
    let mut u = UserInfo::init_user(addr(2));
    p.buy_tokens(&mut u, &addr(2), 60_000_000, 20).unwrap();
    p.end_presale(&admin(), 30).unwrap();
    u.claim_token(&mut p, &addr(2), 31).unwrap();
    let before = p.claimed_amount;
    assert_eq!(u.claim_token(&mut p, &addr(9), 32), Err(PresaleError::AlreadyClaimed));
    assert_eq!(u.claim_refund(&mut p, &addr(9), 32), Err(PresaleError::AlreadyClaimed));
    assert_eq!(p.claimed_amount, before);
}

#[test]
fn late_purchase_on_another_buyers_record_is_still_a_lifecycle_violation() {
    let mut p = single_tier_sale();
    let mut u = UserInfo::init_user(addr(2));
    p.buy_tokens(&mut u, &addr(2), 10_000_000, 20).unwrap();
    assert_eq!(p.buy_tokens(&mut u, &addr(3), 10_000_000, 1_000), Err(PresaleError::PresaleEnded));
}

#[test]
fn hard_cap_sets_both_flags() {
    let mut p = live_sale(ladder(&[(100, ONE_TOKEN)]), 100, 100, 100);
    let mut u = UserInfo::init_user(addr(2));
    p.buy_tokens(&mut u, &addr(2), 100_000_000, 20).unwrap();
    assert!(p.is_hard_capped);
    assert!(p.is_soft_capped);
}

#[test]
fn level_helpers() {
    let mut l = Level::new(10, 5, 1);
    assert_eq!(l.remaining(), 10);
    assert!(!l.is_exhausted());
    l.tokens_sold = 10;
    assert_eq!(l.remaining(), 0);
    assert!(l.is_exhausted());
}

#[test]
fn addresses_compare_by_every_word() {
    assert!(addr(1).same_as(&addr(1)));
    assert!(!addr(1).same_as(&Address::new(1, 0, 0, 1)));
}
