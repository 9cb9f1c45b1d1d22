use vstd::prelude::*;
use crate::registry::{spec_registered, CanisterId, CanisterRecord, Registry};
use crate::strategy::{
    spec_obtain_cycles, spec_top_up_amount, get_obtain_cycle_config, AccountSeed,
    CycleObtainStrategy, FundStrategy, ObtainCycles,
};

verus! {

/// The interval between two scans, in seconds: six hours.
pub const SCAN_INTERVAL_SECS: u64 = 21600;

/// One canister as a scan sees it: the strategies in force when the scan began.
#[derive(Clone, Copy, Debug, PartialEq, Eq, Structural)]
pub struct PlannedUnit {
    pub canister_id: CanisterId,
    pub fund_strategy: FundStrategy,
    /// The canister's own obtain strategy, or the global one where it has none.
    pub obtain_strategy: CycleObtainStrategy,
}

/// Why a canister that needed cycles got none in a scan.
#[derive(Clone, Copy, Debug, PartialEq, Eq, Structural)]
pub enum SkipReason {
    /// The obtain strategy in force is `Disabled`.
    ObtainDisabled,
    /// Minting was asked for where the reserve cannot mint.
    MintingUnavailable,
    /// The withdrawal account is not known to the account collaborator.
    AccountNotFound { account_id: u128 },
}

/// A transfer of cycles into a canister.
#[derive(Clone, Copy, Debug, PartialEq, Eq)]
pub struct TopUp {
    pub canister_id: CanisterId,
    pub amount: u128,
    pub obtain: ObtainCycles,
}

/// What a scan decided for one canister.
#[derive(Clone, Copy, Debug, PartialEq, Eq)]
pub enum UnitOutcome {
    /// The balance could not be observed; the record keeps its last balance.
    ObservationFailed,
    /// The balance was observed and no top-up is due.
    NoTopUpNeeded { balance: u128 },
    /// A top-up was due but no way to obtain cycles applied.
    Skipped { balance: u128, reason: SkipReason },
    /// A top-up is to be executed.
    TopUp { balance: u128, top_up: TopUp },
}

impl UnitOutcome {
    pub open spec fn is_transfer(self) -> bool {
        self is TopUp
    }
}

/// The entry of a scan for canister `id` with record `rec` under global strategy `global`.
pub open spec fn spec_plan_entry(id: CanisterId, rec: CanisterRecord, global: CycleObtainStrategy) -> PlannedUnit {
    PlannedUnit {
        canister_id: id,
        fund_strategy: rec.fund_strategy,
        obtain_strategy: match rec.obtain_strategy {
            Some(s) => s,
            None => global,
        },
    }
}

/// The outcome for one planned canister, given what observing its balance returned, the
/// seed of its withdrawal account if the account collaborator knows it, and whether
/// minting is available.
pub open spec fn spec_decide(
    unit: PlannedUnit,
    observed: Option<u128>,
    account_seed: Option<AccountSeed>,
    minting_available: bool,
) -> UnitOutcome {
    match observed {
        None => UnitOutcome::ObservationFailed,
        Some(balance) => match spec_top_up_amount(unit.fund_strategy, balance) {
            None => UnitOutcome::NoTopUpNeeded { balance },
            Some(amount) => match spec_obtain_cycles(unit.obtain_strategy, account_seed, minting_available) {
                Some(obtain) => UnitOutcome::TopUp {
                    balance,
                    top_up: TopUp { canister_id: unit.canister_id, amount, obtain },
                },
                None => UnitOutcome::Skipped {
                    balance,
                    reason: match unit.obtain_strategy {
                        CycleObtainStrategy::Disabled => SkipReason::ObtainDisabled,
                        CycleObtainStrategy::MintFromNativeToken { .. } => SkipReason::MintingUnavailable,
                        CycleObtainStrategy::WithdrawFromCyclesLedger { account_id } => SkipReason::AccountNotFound {
                            account_id,
                        },
                    },
                },
            },
        },
    }
}

/// Decides what to do for one canister of a scan.
pub fn decide_unit(
    unit: &PlannedUnit,
    observed: Option<u128>,
    account_seed: Option<AccountSeed>,
    minting_available: bool,
) -> (r: UnitOutcome)
    ensures
        r == spec_decide(*unit, observed, account_seed, minting_available),
{
    match observed {
        None => UnitOutcome::ObservationFailed,
        Some(balance) => match unit.fund_strategy.top_up_amount(balance) {
            None => UnitOutcome::NoTopUpNeeded { balance },
            Some(amount) => match get_obtain_cycle_config(&unit.obtain_strategy, account_seed, minting_available) {
                Some(obtain) => UnitOutcome::TopUp {
                    balance,
                    top_up: TopUp { canister_id: unit.canister_id, amount, obtain },
                },
                None => {
                    let reason = match unit.obtain_strategy {
                        CycleObtainStrategy::Disabled => SkipReason::ObtainDisabled,
                        CycleObtainStrategy::MintFromNativeToken { .. } => SkipReason::MintingUnavailable,
                        CycleObtainStrategy::WithdrawFromCyclesLedger { account_id } => SkipReason::AccountNotFound {
                            account_id,
                        },
                    };
                    UnitOutcome::Skipped { balance, reason }
                },
            },
        },
    }
}

/// The outcomes of a scan over `plan`, unit by unit.
pub open spec fn spec_tick_outcomes(
    plan: Seq<PlannedUnit>,
    observed: Seq<Option<u128>>,
    seeds: Seq<Option<AccountSeed>>,
    minting_available: bool,
) -> Seq<UnitOutcome> {
    Seq::new(plan.len(), |i: int| spec_decide(plan[i], observed[i], seeds[i], minting_available))
}

/// The registry after recording the balance `balance` of `id`: a canister that is no
/// longer registered stays unregistered.
pub open spec fn spec_record_balance(
    reg: Map<CanisterId, CanisterRecord>,
    id: CanisterId,
    balance: Option<u128>,
) -> Map<CanisterId, CanisterRecord> {
    match balance {
        Some(b) => if reg.contains_key(id) {
            reg.insert(id, CanisterRecord { last_known_budget: Some(b), ..reg[id] })
        } else {
            reg
        },
        None => reg,
    }
}

/// The registry after recording the first `n` observations of a scan over `plan`.
pub open spec fn spec_after_observations(
    reg: Map<CanisterId, CanisterRecord>,
    plan: Seq<PlannedUnit>,
    observed: Seq<Option<u128>>,
    n: nat,
) -> Map<CanisterId, CanisterRecord>
    decreases n,
{
    if n == 0 {
        reg
    } else {
        let prev = spec_after_observations(reg, plan, observed, (n - 1) as nat);
        spec_record_balance(prev, plan[n - 1].canister_id, observed[n - 1])
    }
}

/// The controller of a fleet of canisters: a registry of monitored canisters, a global
/// obtain strategy for those without one of their own, and the periodic scan's state.
pub struct CycleManager {
    registry: Registry,
    global_obtain_strategy: CycleObtainStrategy,
    minting_available: bool,
    running: bool,
    stopped: bool,
}

impl CycleManager {
    pub closed spec fn wf(&self) -> bool {
        self.registry.wf() && (self.stopped ==> !self.running)
    }

    /// The monitored canisters and their records.
    pub closed spec fn canisters(&self) -> Map<CanisterId, CanisterRecord> {
        self.registry@
    }

    /// The obtain strategy of canisters without one of their own.
    pub closed spec fn global_strategy(&self) -> CycleObtainStrategy {
        self.global_obtain_strategy
    }

    /// Whether the reserve can mint cycles in this environment.
    pub closed spec fn spec_minting_available(&self) -> bool {
        self.minting_available
    }

    /// Whether the periodic scan has been started and not stopped.
    pub closed spec fn spec_running(&self) -> bool {
        self.running
    }

    /// Whether the periodic scan has been stopped for good.
    pub closed spec fn spec_stopped(&self) -> bool {
        self.stopped
    }

    /// A manager with no canisters, the global strategy `Disabled`, the scan not started
    /// and minting unavailable.
    pub fn new() -> (r: CycleManager)
        ensures
            r.wf(),
            r.canisters() == Map::<CanisterId, CanisterRecord>::empty(),
            r.global_strategy() == CycleObtainStrategy::Disabled,
            !r.spec_minting_available(),
            !r.spec_running(),
            !r.spec_stopped(),
    {
        CycleManager {
            registry: Registry::new(),
            global_obtain_strategy: CycleObtainStrategy::Disabled,
            minting_available: false,
            running: false,
            stopped: false,
        }
    }

    /// Registers `canister_id`, or replaces its strategies if it is registered already; its
    /// last known balance is kept.
    pub fn add_canister(
        &mut self,
        canister_id: CanisterId,
        fund_strategy: FundStrategy,
        cycle_obtain_strategy: Option<CycleObtainStrategy>,
    )
        requires
            old(self).wf(),
        ensures
            final(self).wf(),
            final(self).canisters() == old(self).canisters().insert(
                canister_id,
                spec_registered(old(self).canisters(), canister_id, fund_strategy, cycle_obtain_strategy),
            ),
            final(self).global_strategy() == old(self).global_strategy(),
            final(self).spec_minting_available() == old(self).spec_minting_available(),
            final(self).spec_running() == old(self).spec_running(),
            final(self).spec_stopped() == old(self).spec_stopped(),
    {
        let last_known_budget = match self.registry.get(&canister_id) {
            Some(rec) => rec.last_known_budget,
            None => None,
        };
        let rec = CanisterRecord { last_known_budget, fund_strategy, obtain_strategy: cycle_obtain_strategy };
        self.registry.insert(canister_id, rec);
    }

    /// The record of `canister_id`, if it is monitored.
    pub fn get_canister(&self, canister_id: &CanisterId) -> (r: Option<CanisterRecord>)
        requires
            self.wf(),
        ensures
            r == (if self.canisters().contains_key(*canister_id) {
                Some(self.canisters()[*canister_id])
            } else {
                None
            }),
    {
        self.registry.get(canister_id)
    }

    /// Stops monitoring `canister_id`; nothing changes if it is not monitored.
    pub fn remove_canister(&mut self, canister_id: CanisterId)
        requires
            old(self).wf(),
        ensures
            final(self).wf(),
            final(self).canisters() == old(self).canisters().remove(canister_id),
            final(self).global_strategy() == old(self).global_strategy(),
            final(self).spec_minting_available() == old(self).spec_minting_available(),
            final(self).spec_running() == old(self).spec_running(),
            final(self).spec_stopped() == old(self).spec_stopped(),
    {
        self.registry.remove(&canister_id);
    }

    /// Starts the periodic scan; a second call has no further effect, and a stopped scan
    /// stays stopped.
    pub fn start(&mut self)
        requires
            old(self).wf(),
        ensures
            final(self).wf(),
            final(self).spec_running() == !old(self).spec_stopped(),
            final(self).spec_stopped() == old(self).spec_stopped(),
            final(self).canisters() == old(self).canisters(),
            final(self).global_strategy() == old(self).global_strategy(),
            final(self).spec_minting_available() == old(self).spec_minting_available(),
    {
        if !self.stopped {
            self.running = true;
        }
    }

    /// Stops the periodic scan for good: no scan begins after this.
    pub fn stop(&mut self)
        requires
            old(self).wf(),
        ensures
            final(self).wf(),
            !final(self).spec_running(),
            final(self).spec_stopped(),
            final(self).canisters() == old(self).canisters(),
            final(self).global_strategy() == old(self).global_strategy(),
            final(self).spec_minting_available() == old(self).spec_minting_available(),
    {
        self.running = false;
        self.stopped = true;
    }

    /// Replaces the obtain strategy of canisters without one of their own, from the next
    /// scan on.
    pub fn set_global_cycle_obtain_strategy(&mut self, strategy: &CycleObtainStrategy)
        ensures
            final(self).global_strategy() == *strategy,
            final(self).canisters() == old(self).canisters(),
            final(self).wf() == old(self).wf(),
            final(self).spec_minting_available() == old(self).spec_minting_available(),
            final(self).spec_running() == old(self).spec_running(),
            final(self).spec_stopped() == old(self).spec_stopped(),
    {
        self.global_obtain_strategy = *strategy;
    }

    /// The scan's snapshot: each monitored canister once, with the strategies in force now.
    /// Later changes to the manager do not reach a snapshot already taken.
    pub fn plan_tick(&self) -> (r: Vec<PlannedUnit>)
        requires
            self.wf(),
        ensures
            forall|i: int| 0 <= i < r@.len() ==> {
                let id = (#[trigger] r@[i]).canister_id;
                &&& self.canisters().contains_key(id)
                &&& r@[i] == spec_plan_entry(id, self.canisters()[id], self.global_strategy())
            },
            forall|k: CanisterId| #[trigger] self.canisters().contains_key(k)
                ==> exists|i: int| 0 <= i < r@.len() && #[trigger] r@[i].canister_id == k,
            forall|i: int, j: int| 0 <= i < r@.len() && 0 <= j < r@.len() && i != j
                ==> (#[trigger] r@[i]).canister_id != (#[trigger] r@[j]).canister_id,
    {
        let entries = self.registry.snapshot();
        let mut r: Vec<PlannedUnit> = Vec::new();
        let mut i: usize = 0;
        while i < entries.len()
            invariant
                i <= entries@.len(),
                r@.len() == i,
                forall|j: int| 0 <= j < i ==> #[trigger] r@[j] == spec_plan_entry(
                    entries@[j].0, entries@[j].1, self.global_obtain_strategy),
            decreases entries@.len() - i,
        {
            let (id, rec) = entries[i];
            let obtain_strategy = match rec.obtain_strategy {
                Some(s) => s,
                None => self.global_obtain_strategy,
            };
            r.push(PlannedUnit { canister_id: id, fund_strategy: rec.fund_strategy, obtain_strategy });
            i = i + 1;
        }
        proof {
            assert forall|k: CanisterId| #[trigger] self.canisters().contains_key(k)
                implies exists|i: int| 0 <= i < r@.len() && #[trigger] r@[i].canister_id == k by {
                let i = choose|i: int| 0 <= i < entries@.len() && #[trigger] entries@[i].0 == k;
                assert(r@[i].canister_id == k);
            }
            assert forall|i: int, j: int| 0 <= i < r@.len() && 0 <= j < r@.len() && i != j
                implies (#[trigger] r@[i]).canister_id != (#[trigger] r@[j]).canister_id by {
                assert(entries@[i].0 != entries@[j].0);
            }
        }
        r
    }

    /// Records an observed balance of `canister_id`, if it is still monitored.
    pub fn record_balance(&mut self, canister_id: &CanisterId, balance: u128)
        requires
            old(self).wf(),
        ensures
            final(self).wf(),
            final(self).canisters() == spec_record_balance(old(self).canisters(), *canister_id, Some(balance)),
            final(self).global_strategy() == old(self).global_strategy(),
            final(self).spec_minting_available() == old(self).spec_minting_available(),
            final(self).spec_running() == old(self).spec_running(),
            final(self).spec_stopped() == old(self).spec_stopped(),
    {
        match self.registry.get(canister_id) {
            Some(rec) => {
                self.registry.insert(*canister_id, CanisterRecord { last_known_budget: Some(balance), ..rec });
            },
            None => {},
        }
    }

    /// Completes a scan over `plan` (as `plan_tick` took it, perhaps before canisters were
    /// added or removed) once each canister's balance was observed (`None` where the
    /// observation failed) and the seed of each withdrawal account was looked up (`None`
    /// where the account is unknown). Records each observed balance of a canister that is
    /// still monitored, and returns the outcome for each canister of the plan: a failure
    /// for one never changes the outcome for another.
    pub fn run_tick(
        &mut self,
        plan: &Vec<PlannedUnit>,
        observed: &Vec<Option<u128>>,
        seeds: &Vec<Option<AccountSeed>>,
    ) -> (r: Vec<UnitOutcome>)
        requires
            old(self).wf(),
            observed@.len() == plan@.len(),
            seeds@.len() == plan@.len(),
        ensures
            final(self).wf(),
            r@ == spec_tick_outcomes(plan@, observed@, seeds@, old(self).spec_minting_available()),
            final(self).canisters() == spec_after_observations(old(self).canisters(), plan@, observed@, plan@.len()),
            final(self).global_strategy() == old(self).global_strategy(),
            final(self).spec_minting_available() == old(self).spec_minting_available(),
            final(self).spec_running() == old(self).spec_running(),
            final(self).spec_stopped() == old(self).spec_stopped(),
    {
        let mut r: Vec<UnitOutcome> = Vec::new();
        let mut i: usize = 0;
        while i < plan.len()
            invariant
                i <= plan@.len(),
                observed@.len() == plan@.len(),
                seeds@.len() == plan@.len(),
                self.wf(),
                r@ =~= spec_tick_outcomes(plan@, observed@, seeds@, old(self).spec_minting_available()).subrange(0, i as int),
                self.canisters() == spec_after_observations(old(self).canisters(), plan@, observed@, i as nat),
                self.global_strategy() == old(self).global_strategy(),
                self.spec_minting_available() == old(self).spec_minting_available(),
                self.spec_running() == old(self).spec_running(),
                self.spec_stopped() == old(self).spec_stopped(),
            decreases plan@.len() - i,
        {
            let unit = &plan[i];
            let outcome = decide_unit(unit, observed[i], seeds[i], self.minting_available);
            match observed[i] {
                Some(balance) => self.record_balance(&unit.canister_id, balance),
                None => {},
            }
            r.push(outcome);
            i = i + 1;
        }
        assert(r@ =~= spec_tick_outcomes(plan@, observed@, seeds@, old(self).spec_minting_available()));
        r
    }

    /// Whether the periodic scan has been started and not stopped.
    pub fn is_running(&self) -> (r: bool)
        ensures
            r == self.spec_running(),
    {
        self.running
    }

    /// Whether the reserve can mint cycles in this environment.
    pub fn minting_available(&self) -> (r: bool)
        ensures
            r == self.spec_minting_available(),
    {
        self.minting_available
    }

    /// The obtain strategy of canisters without one of their own.
    pub fn global_cycle_obtain_strategy(&self) -> (r: CycleObtainStrategy)
        ensures
            r == self.global_strategy(),
    {
        self.global_obtain_strategy
    }

    /// Tells the manager whether the reserve can mint cycles in this environment.
    pub fn set_minting_available(&mut self, available: bool)
        ensures
            final(self).spec_minting_available() == available,
            final(self).canisters() == old(self).canisters(),
            final(self).wf() == old(self).wf(),
            final(self).global_strategy() == old(self).global_strategy(),
            final(self).spec_running() == old(self).spec_running(),
            final(self).spec_stopped() == old(self).spec_stopped(),
    {
        self.minting_available = available;
    }
}

} // verus!
