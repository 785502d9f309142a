//! Rules that catalogue records have to keep.

pub mod cache_policy;
pub mod ld_red;
pub mod ld_red_laws;
pub mod ld_red_record;
pub mod record_laws;

use crate::catalog::{OperandPattern, OverlayIntrinsic};
use vstd::prelude::*;

verus! {

/// Why a record is refused.
#[derive(Debug, PartialEq, Eq)]
pub struct ResolveError {
    pub message: String,
}

/// The families of which a record may carry the contract.
#[derive(Debug, Clone, Copy, PartialEq, Eq, Structural)]
pub enum ContractFamily {
    CachePolicy,
    Tcgen05,
}

/// What a check returns: nothing, or the text of the error.
pub open spec fn refusal(r: Result<(), ResolveError>) -> Option<Seq<char>> {
    match r {
        Ok(_) => None,
        Err(error) => Some(error.message@),
    }
}

/// Whether a record carries the contract of another family than its own.
pub open spec fn carries_other_contract(policy: OverlayIntrinsic, family: ContractFamily) -> bool {
    ||| family != ContractFamily::CachePolicy && policy.cache_policy is Some
    ||| family != ContractFamily::Tcgen05 && policy.tcgen05 is Some
    ||| policy.other_contracts@.len() > 0
}

/// The text with which a foreign contract is refused.
pub open spec fn other_contract_text(id: Seq<char>, label: Seq<char>) -> Seq<char> {
    id + " "@ + label + " record carries another family contract"@
}

/// Refuses a record that carries the contract of another family than its own.
pub fn ensure_no_other_family_contract(
    policy: &OverlayIntrinsic,
    family: ContractFamily,
    label: &str,
) -> (r: Result<(), ResolveError>)
    ensures
        refusal(r) == (if carries_other_contract(*policy, family) {
            Some(other_contract_text(policy.id@, label@))
        } else {
            None
        }),
{
    if (family != ContractFamily::CachePolicy && policy.cache_policy.is_some()) || (family
        != ContractFamily::Tcgen05 && policy.tcgen05.is_some()) || policy.other_contracts.len() > 0 {
        return Err(
            ResolveError {
                message: policy.id.clone().concat(" ").concat(label).concat(
                    " record carries another family contract",
                ),
            },
        );
    }
    Ok(())
}

/// The error that a complaint about a record makes.
pub(crate) fn complain(policy: &OverlayIntrinsic, complaint: &str) -> (r: ResolveError)
    ensures
        r.message@ == policy.id@ + complaint@,
{
    ResolveError { message: policy.id.clone().concat(complaint) }
}

/// Whether two lists of operand patterns are equal.
pub(crate) fn same_patterns(a: &Vec<OperandPattern>, b: &Vec<OperandPattern>) -> (r: bool)
    ensures
        r == (a@ == b@),
{
    if a.len() != b.len() {
        return false;
    }
    for i in 0..a.len()
        invariant
            a.len() == b.len(),
            forall|j: int| 0 <= j < i ==> a@[j] == b@[j],
    {
        if a[i] != b[i] {
            return false;
        }
    }
    assert(a@ =~= b@);
    true
}

} // verus!
