use vstd::prelude::*;

verus! {

/// The seed material of an account, from which its withdrawal sub-account is derived.
pub type AccountSeed = [u8; 16];

/// When a monitored canister should be topped up, and by how much.
#[derive(Clone, Copy, Debug, PartialEq, Eq, Structural)]
pub enum FundStrategy {
    /// Top up by `fund_cycles` on every scan.
    Always { fund_cycles: u128 },
    /// Top up by `fund_cycles` whenever the balance is below `min_cycles`.
    BelowThreshold { min_cycles: u128, fund_cycles: u128 },
    /// Observe only; never top up.
    Never,
}

/// The amount to top up by, given an observed balance, or `None` for no top-up.
pub open spec fn spec_top_up_amount(fs: FundStrategy, balance: u128) -> Option<u128> {
    match fs {
        FundStrategy::Always { fund_cycles } => Some(fund_cycles),
        FundStrategy::BelowThreshold { min_cycles, fund_cycles } => {
            if balance < min_cycles {
                Some(fund_cycles)
            } else {
                None
            }
        },
        FundStrategy::Never => None,
    }
}

impl FundStrategy {
    /// How much to top up by after observing `balance`, if at all.
    pub fn top_up_amount(&self, balance: u128) -> (r: Option<u128>)
        ensures
            r == spec_top_up_amount(*self, balance),
    {
        match self {
            FundStrategy::Always { fund_cycles } => Some(*fund_cycles),
            FundStrategy::BelowThreshold { min_cycles, fund_cycles } => {
                if balance < *min_cycles {
                    Some(*fund_cycles)
                } else {
                    None
                }
            },
            FundStrategy::Never => None,
        }
    }
}

/// A ledger sub-account.
pub type Subaccount = [u8; 32];

/// The sub-account derived from an account's seed: the seed's bytes, then zeros.
pub open spec fn spec_subaccount_of(seed: Seq<u8>) -> Seq<u8> {
    Seq::new(32, |i: int| if i < seed.len() { seed[i] } else { 0u8 })
}

/// Derives the ledger sub-account of an account from its seed.
pub fn subaccount_from_seed(seed: &AccountSeed) -> (r: Subaccount)
    ensures
        r@ == spec_subaccount_of(seed@),
{
    let mut r: Subaccount = [0u8; 32];
    let mut i: usize = 0;
    while i < 16
        invariant
            i <= 16,
            seed@.len() == 16,
            r@.len() == 32,
            forall|j: int| 0 <= j < i ==> r@[j] == seed@[j],
            forall|j: int| i <= j < 32 ==> r@[j] == 0u8,
        decreases 16 - i,
    {
        r[i] = seed[i];
        i = i + 1;
    }
    assert(r@ =~= spec_subaccount_of(seed@));
    r
}

/// How the cycles of a top-up are obtained. Account ids are UUIDs held as `u128`.
#[derive(Clone, Copy, Debug, PartialEq, Eq, Structural)]
pub enum CycleObtainStrategy {
    /// Never obtain cycles: observation only.
    Disabled,
    /// Mint cycles from the native tokens held by an account.
    MintFromNativeToken { account_id: u128 },
    /// Withdraw cycles from the cycles ledger, out of the account's sub-account.
    WithdrawFromCyclesLedger { account_id: u128 },
}

/// An executable way to obtain cycles, resolved from a `CycleObtainStrategy`.
#[derive(Clone, Copy, Debug, PartialEq, Eq)]
pub enum ObtainCycles {
    /// Mint cycles from the native tokens of the account.
    Mint { account_id: u128 },
    /// Withdraw from the cycles ledger sub-account derived from `seed`.
    WithdrawFromLedger { account_id: u128, seed: AccountSeed },
}

/// The resolution of an obtain strategy: the action, or `None` where no action applies.
///
/// `account_seed` is what the account collaborator holds for the strategy's account;
/// `minting_available` tells whether the reserve can mint in this environment.
pub open spec fn spec_obtain_cycles(
    strategy: CycleObtainStrategy,
    account_seed: Option<AccountSeed>,
    minting_available: bool,
) -> Option<ObtainCycles> {
    match strategy {
        CycleObtainStrategy::Disabled => None,
        CycleObtainStrategy::MintFromNativeToken { account_id } => {
            if minting_available {
                Some(ObtainCycles::Mint { account_id })
            } else {
                None
            }
        },
        CycleObtainStrategy::WithdrawFromCyclesLedger { account_id } => match account_seed {
            Some(seed) => Some(ObtainCycles::WithdrawFromLedger { account_id, seed }),
            None => None,
        },
    }
}

impl CycleObtainStrategy {
    /// The account whose seed the resolver needs, if any: the account of a ledger withdrawal.
    pub fn account_to_look_up(&self) -> (r: Option<u128>)
        ensures
            r == (match *self {
                CycleObtainStrategy::WithdrawFromCyclesLedger { account_id } => Some(account_id),
                _ => None,
            }),
    {
        match self {
            CycleObtainStrategy::WithdrawFromCyclesLedger { account_id } => Some(*account_id),
            _ => None,
        }
    }
}

/// Resolves an obtain strategy into an executable action.
///
/// `account_seed` is the seed of the withdrawal account as looked up in the account
/// collaborator (`None` where it is absent); it is read only for a ledger withdrawal.
pub fn get_obtain_cycle_config(
    strategy: &CycleObtainStrategy,
    account_seed: Option<AccountSeed>,
    minting_available: bool,
) -> (r: Option<ObtainCycles>)
    ensures
        r == spec_obtain_cycles(*strategy, account_seed, minting_available),
{
    match strategy {
        CycleObtainStrategy::Disabled => None,
        CycleObtainStrategy::MintFromNativeToken { account_id } => {
            if minting_available {
                Some(ObtainCycles::Mint { account_id: *account_id })
            } else {
                None
            }
        },
        CycleObtainStrategy::WithdrawFromCyclesLedger { account_id } => match account_seed {
            Some(seed) => Some(ObtainCycles::WithdrawFromLedger { account_id: *account_id, seed }),
            None => None,
        },
    }
}

} // verus!
