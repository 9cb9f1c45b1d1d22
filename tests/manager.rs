use cycle_manager::manager::{
    decide_unit, CycleManager, PlannedUnit, SkipReason, TopUp, UnitOutcome, SCAN_INTERVAL_SECS,
};
use cycle_manager::registry::{CanisterId, CanisterRecord};
use cycle_manager::strategy::{CycleObtainStrategy, FundStrategy, ObtainCycles};

fn id(n: u128) -> CanisterId {
    CanisterId { len: 10, hi: n, lo: 0 }
}

fn threshold() -> FundStrategy {
    FundStrategy::BelowThreshold { min_cycles: 1_000, fund_cycles: 5_000 }
}

fn find(plan: &[PlannedUnit], c: CanisterId) -> usize {
    plan.iter().position(|u| u.canister_id == c).unwrap()
}

#[test]
fn new_manager_is_empty_and_disabled() {
    let m = CycleManager::new();
    assert_eq!(m.get_canister(&id(1)), None);
    assert_eq!(m.global_cycle_obtain_strategy(), CycleObtainStrategy::Disabled);
    assert!(!m.is_running());
    assert!(!m.minting_available());
    assert!(m.plan_tick().is_empty());
    assert_eq!(SCAN_INTERVAL_SECS, 6 * 60 * 60);
}

#[test]
fn add_then_get_returns_registration() {
    let mut m = CycleManager::new();
    let s = Some(CycleObtainStrategy::WithdrawFromCyclesLedger { account_id: 7 });
    m.add_canister(id(1), threshold(), s);
    assert_eq!(
        m.get_canister(&id(1)),
        Some(CanisterRecord { last_known_budget: None, fund_strategy: threshold(), obtain_strategy: s })
    );
    assert_eq!(m.get_canister(&id(2)), None);
}

#[test]
fn latest_registration_wins_over_a_sequence() {
    let mut m = CycleManager::new();
    m.add_canister(id(1), FundStrategy::Never, None);
    m.add_canister(id(2), FundStrategy::Never, None);
    m.remove_canister(id(1));
    assert_eq!(m.get_canister(&id(1)), None);
    m.add_canister(id(1), FundStrategy::Always { fund_cycles: 3 }, Some(CycleObtainStrategy::Disabled));
    m.add_canister(id(1), threshold(), None);
    let rec = m.get_canister(&id(1)).unwrap();
    assert_eq!(rec.fund_strategy, threshold());
    assert_eq!(rec.obtain_strategy, None);
    m.remove_canister(id(2));
    m.remove_canister(id(2));
    assert_eq!(m.get_canister(&id(2)), None);
    assert_eq!(m.plan_tick().len(), 1);
}

#[test]
fn remove_of_unknown_canister_is_a_no_op() {
    let mut m = CycleManager::new();
    m.add_canister(id(1), FundStrategy::Never, None);
    m.remove_canister(id(9));
    assert!(m.get_canister(&id(1)).is_some());
}

#[test]
fn reregistering_keeps_last_known_budget() {
    let mut m = CycleManager::new();
    m.add_canister(id(1), FundStrategy::Never, None);
    m.record_balance(&id(1), 42);
    m.add_canister(id(1), threshold(), Some(CycleObtainStrategy::Disabled));
    assert_eq!(
        m.get_canister(&id(1)),
        Some(CanisterRecord {
            last_known_budget: Some(42),
            fund_strategy: threshold(),
            obtain_strategy: Some(CycleObtainStrategy::Disabled),
        })
    );
}

#[test]
fn record_balance_of_removed_canister_does_nothing() {
    let mut m = CycleManager::new();
    m.record_balance(&id(1), 42);
    assert_eq!(m.get_canister(&id(1)), None);
}

#[test]
fn start_is_idempotent() {
    let mut m = CycleManager::new();
    m.add_canister(id(1), FundStrategy::Never, None);
    m.start();
    m.start();
    assert!(m.is_running());
    assert!(m.get_canister(&id(1)).is_some());
}

#[test]
fn disabled_unit_never_transfers() {
    let mut m = CycleManager::new();
    m.add_canister(id(1), FundStrategy::Always { fund_cycles: 10 }, None);
    for balance in [0u128, 1, 1_000_000] {
        let plan = m.plan_tick();
        let out = m.run_tick(&plan, &vec![Some(balance)], &vec![Some([1u8; 16])]);
        assert_eq!(out, vec![UnitOutcome::Skipped { balance, reason: SkipReason::ObtainDisabled }]);
    }
    assert_eq!(m.get_canister(&id(1)).unwrap().last_known_budget, Some(1_000_000));
}

#[test]
fn missing_account_skips_only_that_unit() {
    let mut m = CycleManager::new();
    m.add_canister(id(1), threshold(), Some(CycleObtainStrategy::WithdrawFromCyclesLedger { account_id: 5 }));
    m.add_canister(id(2), threshold(), Some(CycleObtainStrategy::WithdrawFromCyclesLedger { account_id: 6 }));
    let plan = m.plan_tick();
    let a = find(&plan, id(1));
    let b = find(&plan, id(2));
    let mut seeds = vec![None, None];
    seeds[b] = Some([6u8; 16]);
    let out = m.run_tick(&plan, &vec![Some(10), Some(20)], &seeds);
    assert_eq!(out[a], UnitOutcome::Skipped { balance: [10, 20][a], reason: SkipReason::AccountNotFound { account_id: 5 } });
    assert_eq!(
        out[b],
        UnitOutcome::TopUp {
            balance: [10, 20][b],
            top_up: TopUp {
                canister_id: id(2),
                amount: 5_000,
                obtain: ObtainCycles::WithdrawFromLedger { account_id: 6, seed: [6u8; 16] },
            },
        }
    );
}

#[test]
fn global_change_reaches_only_next_tick_and_unoverridden_units() {
    let mut m = CycleManager::new();
    m.add_canister(id(1), threshold(), None);
    m.add_canister(id(2), threshold(), Some(CycleObtainStrategy::Disabled));
    let plan_n = m.plan_tick();
    let g = CycleObtainStrategy::WithdrawFromCyclesLedger { account_id: 1 };
    m.set_global_cycle_obtain_strategy(&g);
    assert_eq!(m.global_cycle_obtain_strategy(), g);
    // The snapshot of tick N keeps the strategies of its start.
    for u in &plan_n {
        assert_eq!(u.obtain_strategy, CycleObtainStrategy::Disabled);
    }
    let out_n = m.run_tick(&plan_n, &vec![Some(0), Some(0)], &vec![Some([1u8; 16]), Some([1u8; 16])]);
    assert!(out_n.iter().all(|o| !matches!(o, UnitOutcome::TopUp { .. })));
    let plan = m.plan_tick();
    let a = find(&plan, id(1));
    let b = find(&plan, id(2));
    assert_eq!(plan[a].obtain_strategy, g);
    assert_eq!(plan[b].obtain_strategy, CycleObtainStrategy::Disabled);
    let out = m.run_tick(&plan, &vec![Some(0), Some(0)], &vec![Some([1u8; 16]), Some([1u8; 16])]);
    assert!(matches!(out[a], UnitOutcome::TopUp { .. }));
    assert_eq!(out[b], UnitOutcome::Skipped { balance: 0, reason: SkipReason::ObtainDisabled });
}

#[test]
fn observation_failure_does_not_stop_other_units() {
    let mut m = CycleManager::new();
    m.set_minting_available(true);
    m.add_canister(id(1), threshold(), Some(CycleObtainStrategy::MintFromNativeToken { account_id: 3 }));
    m.add_canister(id(2), threshold(), Some(CycleObtainStrategy::MintFromNativeToken { account_id: 3 }));
    m.record_balance(&id(1), 77);
    let plan = m.plan_tick();
    let a = find(&plan, id(1));
    let b = find(&plan, id(2));
    let mut observed = vec![None, None];
    observed[b] = Some(999);
    let out = m.run_tick(&plan, &observed, &vec![None, None]);
    assert_eq!(out[a], UnitOutcome::ObservationFailed);
    assert_eq!(
        out[b],
        UnitOutcome::TopUp {
            balance: 999,
            top_up: TopUp { canister_id: id(2), amount: 5_000, obtain: ObtainCycles::Mint { account_id: 3 } },
        }
    );
    assert_eq!(m.get_canister(&id(1)).unwrap().last_known_budget, Some(77));
    assert_eq!(m.get_canister(&id(2)).unwrap().last_known_budget, Some(999));
}

#[test]
fn minting_unavailable_skips_mint() {
    let unit = PlannedUnit {
        canister_id: id(1),
        fund_strategy: FundStrategy::Always { fund_cycles: 9 },
        obtain_strategy: CycleObtainStrategy::MintFromNativeToken { account_id: 3 },
    };
    assert_eq!(
        decide_unit(&unit, Some(5), None, false),
        UnitOutcome::Skipped { balance: 5, reason: SkipReason::MintingUnavailable }
    );
}

#[test]
fn balance_above_threshold_needs_no_top_up() {
    let unit = PlannedUnit {
        canister_id: id(1),
        fund_strategy: threshold(),
        obtain_strategy: CycleObtainStrategy::WithdrawFromCyclesLedger { account_id: 3 },
    };
    assert_eq!(decide_unit(&unit, Some(1_000), Some([0u8; 16]), true), UnitOutcome::NoTopUpNeeded { balance: 1_000 });
}

#[test]
fn unit_removed_mid_scan_is_dropped() {
    let mut m = CycleManager::new();
    m.add_canister(id(1), threshold(), None);
    let plan = m.plan_tick();
    m.remove_canister(id(1));
    let out = m.run_tick(&plan, &vec![Some(3)], &vec![None]);
    assert_eq!(out, vec![UnitOutcome::Skipped { balance: 3, reason: SkipReason::ObtainDisabled }]);
    assert_eq!(m.get_canister(&id(1)), None);
    assert!(m.plan_tick().is_empty());
}

#[test]
fn scenario_disabled_and_withdraw_one_tick() {
    let mut m = CycleManager::new();
    let seed: [u8; 16] = [0xAB; 16];
    m.add_canister(id(0xA), threshold(), Some(CycleObtainStrategy::Disabled));
    m.add_canister(id(0xB), threshold(), Some(CycleObtainStrategy::WithdrawFromCyclesLedger { account_id: 1 }));
    let plan = m.plan_tick();
    let a = find(&plan, id(0xA));
    let b = find(&plan, id(0xB));
    let mut observed = vec![None, None];
    observed[a] = Some(100);
    observed[b] = Some(200);
    let mut seeds = vec![None, None];
    seeds[b] = plan[b].obtain_strategy.account_to_look_up().map(|_| seed);
    let out = m.run_tick(&plan, &observed, &seeds);
    let transfers: Vec<&UnitOutcome> = out.iter().filter(|o| matches!(o, UnitOutcome::TopUp { .. })).collect();
    assert_eq!(transfers.len(), 1);
    assert_eq!(
        out[b],
        UnitOutcome::TopUp {
            balance: 200,
            top_up: TopUp {
                canister_id: id(0xB),
                amount: 5_000,
                obtain: ObtainCycles::WithdrawFromLedger { account_id: 1, seed },
            },
        }
    );
    assert_eq!(out[a], UnitOutcome::Skipped { balance: 100, reason: SkipReason::ObtainDisabled });
    assert_eq!(m.get_canister(&id(0xA)).unwrap().last_known_budget, Some(100));
    assert_eq!(m.get_canister(&id(0xB)).unwrap().last_known_budget, Some(200));
}

#[test]
fn stopped_scan_stays_stopped() {
    let mut m = CycleManager::new();
    m.start();
    m.stop();
    assert!(!m.is_running());
    m.start();
    assert!(!m.is_running());
}
