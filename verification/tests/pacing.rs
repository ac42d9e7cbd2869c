use bidder_core::pacing::local::LocalBudgetPacer;
use bidder_core::pacing::{BudgetPacer, PaceDecision};

fn pacer_with(budgets: Vec<(u32, i64)>) -> LocalBudgetPacer {
    let mut p = LocalBudgetPacer::new();
    p.reload(budgets);
    p
}

#[test]
fn has_budget_decrements_counter() {
    let mut p = pacer_with(vec![(1, 500)]);
    assert_eq!(p.check_and_reserve(1, 100), PaceDecision::HasBudget);
    assert_eq!(p.check_and_reserve(1, 100), PaceDecision::HasBudget);
    assert_eq!(p.check_and_reserve(1, 300), PaceDecision::HasBudget);
}

#[test]
fn exhausted_when_budget_zero() {
    let mut p = pacer_with(vec![(1, 0)]);
    assert_eq!(p.check_and_reserve(1, 1), PaceDecision::Exhausted);
}

#[test]
fn allows_one_overshoot_then_blocks() {
    let mut p = pacer_with(vec![(1, 50)]);
    assert_eq!(p.check_and_reserve(1, 100), PaceDecision::HasBudget);
    assert_eq!(p.check_and_reserve(1, 1), PaceDecision::Exhausted);
}

#[test]
fn missing_campaign_is_exhausted() {
    let mut p = LocalBudgetPacer::new();
    assert_eq!(p.check_and_reserve(99, 10), PaceDecision::Exhausted);
}

#[test]
fn release_restores_budget() {
    let mut p = pacer_with(vec![(1, 100)]);
    p.check_and_reserve(1, 100);
    assert_eq!(p.check_and_reserve(1, 1), PaceDecision::Exhausted);
    p.release(1, 100);
    assert_eq!(p.check_and_reserve(1, 100), PaceDecision::HasBudget);
}

#[test]
fn reload_updates_existing_budget() {
    let mut p = pacer_with(vec![(1, 100)]);
    p.check_and_reserve(1, 100);
    p.reload(vec![(1, 500)]);
    assert_eq!(p.check_and_reserve(1, 500), PaceDecision::HasBudget);
}

#[test]
fn a_refused_bid_costs_nothing() {
    let mut p = pacer_with(vec![(1, 10), (2, 10)]);
    assert_eq!(p.check_and_reserve(1, 11), PaceDecision::HasBudget);
    assert_eq!(p.check_and_reserve(1, 500), PaceDecision::Exhausted);
    // One cent over: the budget is back as soon as two are released.
    p.release(1, 2);
    assert_eq!(p.check_and_reserve(1, 1), PaceDecision::HasBudget);
    assert_eq!(p.check_and_reserve(2, 1), PaceDecision::HasBudget);
    // Releasing for an unknown campaign gives it no budget.
    p.release(3, 100);
    assert_eq!(p.check_and_reserve(3, 1), PaceDecision::Exhausted);
}
