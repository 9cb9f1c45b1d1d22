use vstd::prelude::*;
use crate::manager::{spec_decide, spec_plan_entry, spec_tick_outcomes, PlannedUnit, UnitOutcome};
use crate::registry::{spec_registered, CanisterId, CanisterRecord};
use crate::strategy::{AccountSeed, CycleObtainStrategy, FundStrategy};

verus! {

/// A change to the registry, as made by `add_canister` or `remove_canister`.
pub enum RegistryOp {
    Add { canister_id: CanisterId, fund_strategy: FundStrategy, obtain_strategy: Option<CycleObtainStrategy> },
    Remove { canister_id: CanisterId },
}

impl RegistryOp {
    pub open spec fn canister_id(self) -> CanisterId {
        match self {
            RegistryOp::Add { canister_id, .. } => canister_id,
            RegistryOp::Remove { canister_id } => canister_id,
        }
    }
}

/// The registry after one change, as the contracts of `add_canister` and
/// `remove_canister` state it.
pub open spec fn spec_apply_op(reg: Map<CanisterId, CanisterRecord>, op: RegistryOp) -> Map<CanisterId, CanisterRecord> {
    match op {
        RegistryOp::Add { canister_id, fund_strategy, obtain_strategy } => reg.insert(
            canister_id,
            spec_registered(reg, canister_id, fund_strategy, obtain_strategy),
        ),
        RegistryOp::Remove { canister_id } => reg.remove(canister_id),
    }
}

/// The registry after a sequence of changes, in order.
pub open spec fn spec_apply_ops(reg: Map<CanisterId, CanisterRecord>, ops: Seq<RegistryOp>) -> Map<CanisterId, CanisterRecord>
    decreases ops.len(),
{
    if ops.len() == 0 {
        reg
    } else {
        spec_apply_op(spec_apply_ops(reg, ops.drop_last()), ops.last())
    }
}

/// The last change in `ops` that concerns `id`, if any.
pub open spec fn spec_latest_op(ops: Seq<RegistryOp>, id: CanisterId) -> Option<RegistryOp>
    decreases ops.len(),
{
    if ops.len() == 0 {
        None
    } else if ops.last().canister_id() == id {
        Some(ops.last())
    } else {
        spec_latest_op(ops.drop_last(), id)
    }
}

/// After any sequence of registrations and removals, a canister is monitored exactly when
/// the last change that concerns it is a registration, and then with that registration's
/// strategies; a canister that no change concerns keeps its state.
pub proof fn lemma_latest_registration_wins(reg: Map<CanisterId, CanisterRecord>, ops: Seq<RegistryOp>, id: CanisterId)
    ensures
        ({
            let after = spec_apply_ops(reg, ops);
            match spec_latest_op(ops, id) {
                None => after.contains_key(id) == reg.contains_key(id)
                    && (reg.contains_key(id) ==> after[id] == reg[id]),
                Some(RegistryOp::Add { fund_strategy, obtain_strategy, .. }) => after.contains_key(id)
                    && after[id].fund_strategy == fund_strategy
                    && after[id].obtain_strategy == obtain_strategy,
                Some(RegistryOp::Remove { .. }) => !after.contains_key(id),
            }
        }),
    decreases ops.len(),
{
    if ops.len() > 0 {
        lemma_latest_registration_wins(reg, ops.drop_last(), id);
    }
}

/// Registering a canister that is already monitored keeps its last known balance and
/// replaces only its strategies.
pub proof fn lemma_reregister_keeps_budget(
    reg: Map<CanisterId, CanisterRecord>,
    id: CanisterId,
    fund_strategy: FundStrategy,
    obtain_strategy: Option<CycleObtainStrategy>,
)
    requires
        reg.contains_key(id),
    ensures
        ({
            let after = spec_apply_op(reg, RegistryOp::Add { canister_id: id, fund_strategy, obtain_strategy });
            &&& after.contains_key(id)
            &&& after[id].last_known_budget == reg[id].last_known_budget
            &&& after[id].fund_strategy == fund_strategy
            &&& after[id].obtain_strategy == obtain_strategy
            &&& after.remove(id) == reg.remove(id)
        }),
{
    let after = spec_apply_op(reg, RegistryOp::Add { canister_id: id, fund_strategy, obtain_strategy });
    assert(after.remove(id) =~= reg.remove(id));
}

/// A canister whose obtain strategy in force is `Disabled` (its own, or the global one
/// where it has none) never gets a transfer, whatever balance is observed.
pub proof fn lemma_disabled_never_transfers(id: CanisterId, rec: CanisterRecord, global: CycleObtainStrategy)
    requires
        rec.obtain_strategy == Some(CycleObtainStrategy::Disabled)
            || (rec.obtain_strategy is None && global == CycleObtainStrategy::Disabled),
    ensures
        forall|observed: Option<u128>, seed: Option<AccountSeed>, minting_available: bool|
            !(#[trigger] spec_decide(spec_plan_entry(id, rec, global), observed, seed, minting_available)).is_transfer(),
{
}

/// In a scan, a canister that is to withdraw from an account that the account
/// collaborator does not know gets no transfer, and what the lookup gave for it changes
/// the outcome of no other canister.
pub proof fn lemma_missing_account_skips_only_its_unit(
    plan: Seq<PlannedUnit>,
    observed: Seq<Option<u128>>,
    seeds: Seq<Option<AccountSeed>>,
    minting_available: bool,
    j: int,
    other_seed: Option<AccountSeed>,
)
    requires
        observed.len() == plan.len(),
        seeds.len() == plan.len(),
        0 <= j < plan.len(),
        plan[j].obtain_strategy is WithdrawFromCyclesLedger,
        seeds[j] is None,
    ensures
        !spec_tick_outcomes(plan, observed, seeds, minting_available)[j].is_transfer(),
        spec_tick_outcomes(plan, observed, seeds, minting_available).len() == plan.len(),
        forall|i: int| 0 <= i < plan.len() && i != j
            ==> #[trigger] spec_tick_outcomes(plan, observed, seeds, minting_available)[i]
                == spec_tick_outcomes(plan, observed, seeds.update(j, other_seed), minting_available)[i],
{
}

/// A change of the global strategy leaves the scan entry of every canister with a strategy
/// of its own as it was, and gives the new strategy to every other canister; a snapshot
/// taken before the change is a value and does not change with it.
pub proof fn lemma_global_change_reaches_only_unoverridden(
    reg: Map<CanisterId, CanisterRecord>,
    before: CycleObtainStrategy,
    after: CycleObtainStrategy,
)
    ensures
        forall|id: CanisterId| #[trigger] reg.contains_key(id) && reg[id].obtain_strategy is Some
            ==> spec_plan_entry(id, reg[id], after) == spec_plan_entry(id, reg[id], before),
        forall|id: CanisterId| #[trigger] reg.contains_key(id) && reg[id].obtain_strategy is None
            ==> spec_plan_entry(id, reg[id], after).obtain_strategy == after,
{
}

/// A failed observation of one canister in a scan changes the outcome of no other
/// canister of that scan; that canister itself gets no transfer.
pub proof fn lemma_observation_failure_isolated(
    plan: Seq<PlannedUnit>,
    observed: Seq<Option<u128>>,
    seeds: Seq<Option<AccountSeed>>,
    minting_available: bool,
    j: int,
)
    requires
        observed.len() == plan.len(),
        seeds.len() == plan.len(),
        0 <= j < plan.len(),
    ensures
        spec_tick_outcomes(plan, observed.update(j, None), seeds, minting_available)[j]
            == UnitOutcome::ObservationFailed,
        forall|i: int| 0 <= i < plan.len() && i != j
            ==> #[trigger] spec_tick_outcomes(plan, observed.update(j, None), seeds, minting_available)[i]
                == spec_tick_outcomes(plan, observed, seeds, minting_available)[i],
{
}

} // verus!
