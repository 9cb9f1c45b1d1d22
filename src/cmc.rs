use vstd::prelude::*;
use crate::registry::PrincipalId;

verus! {

/// Properties that a subnet must have to host a new canister.
#[derive(Clone, Debug, PartialEq, Eq, Hash)]
pub struct SubnetFilter {
    pub subnet_type: Option<String>,
}

/// How to select the subnet of a new canister.
#[derive(Clone, Debug, PartialEq, Eq, Hash)]
pub enum SubnetSelection {
    /// A subnet that has the filter's properties.
    Filter(SubnetFilter),
    /// This subnet.
    Subnet { subnet: PrincipalId },
}

} // verus!
