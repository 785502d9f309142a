//! The rules of the `createpolicy` family.

use crate::catalog::cache_policy::{
    CachePolicy, CachePolicyForm, CachePolicyPriority, CachePolicySecondaryPriority,
};
use crate::catalog::{
    BackendLowering, BackendLoweringMechanism, ImportedIntrinsic, IntrinsicSource, OperandPattern,
    OverlayIntrinsic,
};
use crate::lower::IntrinsicBackend;
use crate::resolve::{
    carries_other_contract, complain, ensure_no_other_family_contract, other_contract_text,
    refusal, same_patterns, ContractFamily, ResolveError,
};
use crate::text::{
    blank, decimal, decimal_is_injective, is_blank, is_given, is_only_text, is_text, optional_text,
    owned_texts, same_text, same_texts, slice_texts, texts,
};
use vstd::prelude::*;

verus! {

/// The fixed part of one `createpolicy` record.
#[derive(Debug)]
pub struct CachePolicyRecipe {
    pub id: &'static str,
    pub abi_id: &'static str,
    pub operation_key: &'static str,
    pub dialect_op_type: &'static str,
    pub modifiers: Vec<&'static str>,
}

/// Where the PTX manual documents the instruction.
pub const CACHE_POLICY_ISA_SECTION: &'static str =
    "9.7.9.19 Data Movement and Conversion Instructions: createpolicy";

/// Where the PTX manual documents the instruction.
pub const CACHE_POLICY_ISA_URL: &'static str =
    "https://docs.nvidia.com/cuda/parallel-thread-execution/#data-movement-and-conversion-instructions-createpolicy";

/// The priority in camel case.
pub open spec fn camel_case(priority: CachePolicyPriority) -> Seq<char> {
    match priority {
        CachePolicyPriority::EvictLast => "EvictLast"@,
        CachePolicyPriority::EvictNormal => "EvictNormal"@,
        CachePolicyPriority::EvictFirst => "EvictFirst"@,
        CachePolicyPriority::EvictUnchanged => "EvictUnchanged"@,
    }
}

/// The place of a priority in the canonical order.
pub open spec fn ordinal(priority: CachePolicyPriority) -> nat {
    match priority {
        CachePolicyPriority::EvictLast => 0,
        CachePolicyPriority::EvictNormal => 1,
        CachePolicyPriority::EvictFirst => 2,
        CachePolicyPriority::EvictUnchanged => 3,
    }
}

/// The identifier of the intrinsic of a policy.
pub open spec fn recipe_id(policy: CachePolicy) -> Seq<char> {
    "createpolicy_fractional_"@ + policy.primary.name() + (if policy.secondary.is_spelled() {
        "_evict_first"@
    } else {
        ""@
    })
}

/// The ABI identifier of a policy: the eight policies are numbered in order,
/// the ones with a spelled secondary priority last.
pub open spec fn recipe_abi_id(policy: CachePolicy) -> Seq<char> {
    "i"@ + decimal(
        1039 + ordinal(policy.primary) + (if policy.secondary.is_spelled() {
            4nat
        } else {
            0nat
        }),
    )
}

/// The operation key of a policy.
pub open spec fn recipe_operation_key(policy: CachePolicy) -> Seq<char> {
    "memory.cache_policy.l2.fractional."@ + policy.primary.name() + (
    if policy.secondary.is_spelled() {
        ".evict_first"@
    } else {
        ""@
    })
}

/// The dialect operation type of a policy.
pub open spec fn recipe_op_type(policy: CachePolicy) -> Seq<char> {
    "CreatepolicyFractional"@ + camel_case(policy.primary) + (if policy.secondary.is_spelled() {
        "EvictFirst"@
    } else {
        ""@
    }) + "Op"@
}

/// Whether a recipe is the one of a policy.
pub open spec fn is_recipe(recipe: CachePolicyRecipe, policy: CachePolicy) -> bool {
    &&& recipe.id@ == recipe_id(policy)
    &&& recipe.abi_id@ == recipe_abi_id(policy)
    &&& recipe.operation_key@ == recipe_operation_key(policy)
    &&& recipe.dialect_op_type@ == recipe_op_type(policy)
    &&& slice_texts(recipe.modifiers@) == policy.modifiers()
}

/// The fractional policy with two priorities.
spec fn policy_of(
    primary: CachePolicyPriority,
    secondary: CachePolicySecondaryPriority,
) -> CachePolicy {
    CachePolicy { form: CachePolicyForm::Fractional, primary, secondary }
}

/// The identifiers of the eight recipes.
proof fn ids_as_spelled()
    ensures
        "createpolicy_fractional_evict_last"@ == recipe_id(
            policy_of(CachePolicyPriority::EvictLast, CachePolicySecondaryPriority::EvictUnchanged),
        ),
        "createpolicy_fractional_evict_normal"@ == recipe_id(
            policy_of(CachePolicyPriority::EvictNormal, CachePolicySecondaryPriority::EvictUnchanged),
        ),
        "createpolicy_fractional_evict_first"@ == recipe_id(
            policy_of(CachePolicyPriority::EvictFirst, CachePolicySecondaryPriority::EvictUnchanged),
        ),
        "createpolicy_fractional_evict_unchanged"@ == recipe_id(
            policy_of(CachePolicyPriority::EvictUnchanged, CachePolicySecondaryPriority::EvictUnchanged),
        ),
        "createpolicy_fractional_evict_last_evict_first"@ == recipe_id(
            policy_of(CachePolicyPriority::EvictLast, CachePolicySecondaryPriority::EvictFirst),
        ),
        "createpolicy_fractional_evict_normal_evict_first"@ == recipe_id(
            policy_of(CachePolicyPriority::EvictNormal, CachePolicySecondaryPriority::EvictFirst),
        ),
        "createpolicy_fractional_evict_first_evict_first"@ == recipe_id(
            policy_of(CachePolicyPriority::EvictFirst, CachePolicySecondaryPriority::EvictFirst),
        ),
        "createpolicy_fractional_evict_unchanged_evict_first"@ == recipe_id(
            policy_of(CachePolicyPriority::EvictUnchanged, CachePolicySecondaryPriority::EvictFirst),
        ),
{
    reveal_strlit("createpolicy_fractional_");
    reveal_strlit("_evict_first");
    reveal_strlit("");
    reveal_strlit("evict_last");
    reveal_strlit("evict_normal");
    reveal_strlit("evict_first");
    reveal_strlit("evict_unchanged");
    reveal_strlit("createpolicy_fractional_evict_last");
    assert("createpolicy_fractional_evict_last"@ =~= recipe_id(
        policy_of(CachePolicyPriority::EvictLast, CachePolicySecondaryPriority::EvictUnchanged),
    ));
    reveal_strlit("createpolicy_fractional_evict_normal");
    assert("createpolicy_fractional_evict_normal"@ =~= recipe_id(
        policy_of(CachePolicyPriority::EvictNormal, CachePolicySecondaryPriority::EvictUnchanged),
    ));
    reveal_strlit("createpolicy_fractional_evict_first");
    assert("createpolicy_fractional_evict_first"@ =~= recipe_id(
        policy_of(CachePolicyPriority::EvictFirst, CachePolicySecondaryPriority::EvictUnchanged),
    ));
    reveal_strlit("createpolicy_fractional_evict_unchanged");
    assert("createpolicy_fractional_evict_unchanged"@ =~= recipe_id(
        policy_of(CachePolicyPriority::EvictUnchanged, CachePolicySecondaryPriority::EvictUnchanged),
    ));
    reveal_strlit("createpolicy_fractional_evict_last_evict_first");
    assert("createpolicy_fractional_evict_last_evict_first"@ =~= recipe_id(
        policy_of(CachePolicyPriority::EvictLast, CachePolicySecondaryPriority::EvictFirst),
    ));
    reveal_strlit("createpolicy_fractional_evict_normal_evict_first");
    assert("createpolicy_fractional_evict_normal_evict_first"@ =~= recipe_id(
        policy_of(CachePolicyPriority::EvictNormal, CachePolicySecondaryPriority::EvictFirst),
    ));
    reveal_strlit("createpolicy_fractional_evict_first_evict_first");
    assert("createpolicy_fractional_evict_first_evict_first"@ =~= recipe_id(
        policy_of(CachePolicyPriority::EvictFirst, CachePolicySecondaryPriority::EvictFirst),
    ));
    reveal_strlit("createpolicy_fractional_evict_unchanged_evict_first");
    assert("createpolicy_fractional_evict_unchanged_evict_first"@ =~= recipe_id(
        policy_of(CachePolicyPriority::EvictUnchanged, CachePolicySecondaryPriority::EvictFirst),
    ));
}

/// The ABI identifiers of the eight recipes.
proof fn abi_ids_as_spelled()
    ensures
        "i1039"@ == recipe_abi_id(
            policy_of(CachePolicyPriority::EvictLast, CachePolicySecondaryPriority::EvictUnchanged),
        ),
        "i1040"@ == recipe_abi_id(
            policy_of(CachePolicyPriority::EvictNormal, CachePolicySecondaryPriority::EvictUnchanged),
        ),
        "i1041"@ == recipe_abi_id(
            policy_of(CachePolicyPriority::EvictFirst, CachePolicySecondaryPriority::EvictUnchanged),
        ),
        "i1042"@ == recipe_abi_id(
            policy_of(CachePolicyPriority::EvictUnchanged, CachePolicySecondaryPriority::EvictUnchanged),
        ),
        "i1043"@ == recipe_abi_id(
            policy_of(CachePolicyPriority::EvictLast, CachePolicySecondaryPriority::EvictFirst),
        ),
        "i1044"@ == recipe_abi_id(
            policy_of(CachePolicyPriority::EvictNormal, CachePolicySecondaryPriority::EvictFirst),
        ),
        "i1045"@ == recipe_abi_id(
            policy_of(CachePolicyPriority::EvictFirst, CachePolicySecondaryPriority::EvictFirst),
        ),
        "i1046"@ == recipe_abi_id(
            policy_of(CachePolicyPriority::EvictUnchanged, CachePolicySecondaryPriority::EvictFirst),
        ),
{
    reveal_strlit("i");
    reveal_with_fuel(decimal, 5);
    reveal_strlit("i1039");
    assert("i1039"@ =~= recipe_abi_id(
        policy_of(CachePolicyPriority::EvictLast, CachePolicySecondaryPriority::EvictUnchanged),
    ));
    reveal_strlit("i1040");
    assert("i1040"@ =~= recipe_abi_id(
        policy_of(CachePolicyPriority::EvictNormal, CachePolicySecondaryPriority::EvictUnchanged),
    ));
    reveal_strlit("i1041");
    assert("i1041"@ =~= recipe_abi_id(
        policy_of(CachePolicyPriority::EvictFirst, CachePolicySecondaryPriority::EvictUnchanged),
    ));
    reveal_strlit("i1042");
    assert("i1042"@ =~= recipe_abi_id(
        policy_of(CachePolicyPriority::EvictUnchanged, CachePolicySecondaryPriority::EvictUnchanged),
    ));
    reveal_strlit("i1043");
    assert("i1043"@ =~= recipe_abi_id(
        policy_of(CachePolicyPriority::EvictLast, CachePolicySecondaryPriority::EvictFirst),
    ));
    reveal_strlit("i1044");
    assert("i1044"@ =~= recipe_abi_id(
        policy_of(CachePolicyPriority::EvictNormal, CachePolicySecondaryPriority::EvictFirst),
    ));
    reveal_strlit("i1045");
    assert("i1045"@ =~= recipe_abi_id(
        policy_of(CachePolicyPriority::EvictFirst, CachePolicySecondaryPriority::EvictFirst),
    ));
    reveal_strlit("i1046");
    assert("i1046"@ =~= recipe_abi_id(
        policy_of(CachePolicyPriority::EvictUnchanged, CachePolicySecondaryPriority::EvictFirst),
    ));
}

/// The operation keys of the eight recipes.
proof fn operation_keys_as_spelled()
    ensures
        "memory.cache_policy.l2.fractional.evict_last"@ == recipe_operation_key(
            policy_of(CachePolicyPriority::EvictLast, CachePolicySecondaryPriority::EvictUnchanged),
        ),
        "memory.cache_policy.l2.fractional.evict_normal"@ == recipe_operation_key(
            policy_of(CachePolicyPriority::EvictNormal, CachePolicySecondaryPriority::EvictUnchanged),
        ),
        "memory.cache_policy.l2.fractional.evict_first"@ == recipe_operation_key(
            policy_of(CachePolicyPriority::EvictFirst, CachePolicySecondaryPriority::EvictUnchanged),
        ),
        "memory.cache_policy.l2.fractional.evict_unchanged"@ == recipe_operation_key(
            policy_of(CachePolicyPriority::EvictUnchanged, CachePolicySecondaryPriority::EvictUnchanged),
        ),
        "memory.cache_policy.l2.fractional.evict_last.evict_first"@ == recipe_operation_key(
            policy_of(CachePolicyPriority::EvictLast, CachePolicySecondaryPriority::EvictFirst),
        ),
        "memory.cache_policy.l2.fractional.evict_normal.evict_first"@ == recipe_operation_key(
            policy_of(CachePolicyPriority::EvictNormal, CachePolicySecondaryPriority::EvictFirst),
        ),
        "memory.cache_policy.l2.fractional.evict_first.evict_first"@ == recipe_operation_key(
            policy_of(CachePolicyPriority::EvictFirst, CachePolicySecondaryPriority::EvictFirst),
        ),
        "memory.cache_policy.l2.fractional.evict_unchanged.evict_first"@ == recipe_operation_key(
            policy_of(CachePolicyPriority::EvictUnchanged, CachePolicySecondaryPriority::EvictFirst),
        ),
{
    reveal_strlit("memory.cache_policy.l2.fractional.");
    reveal_strlit(".evict_first");
    reveal_strlit("");
    reveal_strlit("evict_last");
    reveal_strlit("evict_normal");
    reveal_strlit("evict_first");
    reveal_strlit("evict_unchanged");
    reveal_strlit("memory.cache_policy.l2.fractional.evict_last");
    assert("memory.cache_policy.l2.fractional.evict_last"@ =~= recipe_operation_key(
        policy_of(CachePolicyPriority::EvictLast, CachePolicySecondaryPriority::EvictUnchanged),
    ));
    reveal_strlit("memory.cache_policy.l2.fractional.evict_normal");
    assert("memory.cache_policy.l2.fractional.evict_normal"@ =~= recipe_operation_key(
        policy_of(CachePolicyPriority::EvictNormal, CachePolicySecondaryPriority::EvictUnchanged),
    ));
    reveal_strlit("memory.cache_policy.l2.fractional.evict_first");
    assert("memory.cache_policy.l2.fractional.evict_first"@ =~= recipe_operation_key(
        policy_of(CachePolicyPriority::EvictFirst, CachePolicySecondaryPriority::EvictUnchanged),
    ));
    reveal_strlit("memory.cache_policy.l2.fractional.evict_unchanged");
    assert("memory.cache_policy.l2.fractional.evict_unchanged"@ =~= recipe_operation_key(
        policy_of(CachePolicyPriority::EvictUnchanged, CachePolicySecondaryPriority::EvictUnchanged),
    ));
    reveal_strlit("memory.cache_policy.l2.fractional.evict_last.evict_first");
    assert("memory.cache_policy.l2.fractional.evict_last.evict_first"@ =~= recipe_operation_key(
        policy_of(CachePolicyPriority::EvictLast, CachePolicySecondaryPriority::EvictFirst),
    ));
    reveal_strlit("memory.cache_policy.l2.fractional.evict_normal.evict_first");
    assert("memory.cache_policy.l2.fractional.evict_normal.evict_first"@ =~= recipe_operation_key(
        policy_of(CachePolicyPriority::EvictNormal, CachePolicySecondaryPriority::EvictFirst),
    ));
    reveal_strlit("memory.cache_policy.l2.fractional.evict_first.evict_first");
    assert("memory.cache_policy.l2.fractional.evict_first.evict_first"@ =~= recipe_operation_key(
        policy_of(CachePolicyPriority::EvictFirst, CachePolicySecondaryPriority::EvictFirst),
    ));
    reveal_strlit("memory.cache_policy.l2.fractional.evict_unchanged.evict_first");
    assert("memory.cache_policy.l2.fractional.evict_unchanged.evict_first"@ =~= recipe_operation_key(
        policy_of(CachePolicyPriority::EvictUnchanged, CachePolicySecondaryPriority::EvictFirst),
    ));
}

/// The dialect operation types of the eight recipes.
proof fn op_types_as_spelled()
    ensures
        "CreatepolicyFractionalEvictLastOp"@ == recipe_op_type(
            policy_of(CachePolicyPriority::EvictLast, CachePolicySecondaryPriority::EvictUnchanged),
        ),
        "CreatepolicyFractionalEvictNormalOp"@ == recipe_op_type(
            policy_of(CachePolicyPriority::EvictNormal, CachePolicySecondaryPriority::EvictUnchanged),
        ),
        "CreatepolicyFractionalEvictFirstOp"@ == recipe_op_type(
            policy_of(CachePolicyPriority::EvictFirst, CachePolicySecondaryPriority::EvictUnchanged),
        ),
        "CreatepolicyFractionalEvictUnchangedOp"@ == recipe_op_type(
            policy_of(CachePolicyPriority::EvictUnchanged, CachePolicySecondaryPriority::EvictUnchanged),
        ),
        "CreatepolicyFractionalEvictLastEvictFirstOp"@ == recipe_op_type(
            policy_of(CachePolicyPriority::EvictLast, CachePolicySecondaryPriority::EvictFirst),
        ),
        "CreatepolicyFractionalEvictNormalEvictFirstOp"@ == recipe_op_type(
            policy_of(CachePolicyPriority::EvictNormal, CachePolicySecondaryPriority::EvictFirst),
        ),
        "CreatepolicyFractionalEvictFirstEvictFirstOp"@ == recipe_op_type(
            policy_of(CachePolicyPriority::EvictFirst, CachePolicySecondaryPriority::EvictFirst),
        ),
        "CreatepolicyFractionalEvictUnchangedEvictFirstOp"@ == recipe_op_type(
            policy_of(CachePolicyPriority::EvictUnchanged, CachePolicySecondaryPriority::EvictFirst),
        ),
{
    reveal_strlit("CreatepolicyFractional");
    reveal_strlit("Op");
    reveal_strlit("");
    reveal_strlit("EvictLast");
    reveal_strlit("EvictNormal");
    reveal_strlit("EvictFirst");
    reveal_strlit("EvictUnchanged");
    reveal_strlit("CreatepolicyFractionalEvictLastOp");
    assert("CreatepolicyFractionalEvictLastOp"@ =~= recipe_op_type(
        policy_of(CachePolicyPriority::EvictLast, CachePolicySecondaryPriority::EvictUnchanged),
    ));
    reveal_strlit("CreatepolicyFractionalEvictNormalOp");
    assert("CreatepolicyFractionalEvictNormalOp"@ =~= recipe_op_type(
        policy_of(CachePolicyPriority::EvictNormal, CachePolicySecondaryPriority::EvictUnchanged),
    ));
    reveal_strlit("CreatepolicyFractionalEvictFirstOp");
    assert("CreatepolicyFractionalEvictFirstOp"@ =~= recipe_op_type(
        policy_of(CachePolicyPriority::EvictFirst, CachePolicySecondaryPriority::EvictUnchanged),
    ));
    reveal_strlit("CreatepolicyFractionalEvictUnchangedOp");
    assert("CreatepolicyFractionalEvictUnchangedOp"@ =~= recipe_op_type(
        policy_of(CachePolicyPriority::EvictUnchanged, CachePolicySecondaryPriority::EvictUnchanged),
    ));
    reveal_strlit("CreatepolicyFractionalEvictLastEvictFirstOp");
    assert("CreatepolicyFractionalEvictLastEvictFirstOp"@ =~= recipe_op_type(
        policy_of(CachePolicyPriority::EvictLast, CachePolicySecondaryPriority::EvictFirst),
    ));
    reveal_strlit("CreatepolicyFractionalEvictNormalEvictFirstOp");
    assert("CreatepolicyFractionalEvictNormalEvictFirstOp"@ =~= recipe_op_type(
        policy_of(CachePolicyPriority::EvictNormal, CachePolicySecondaryPriority::EvictFirst),
    ));
    reveal_strlit("CreatepolicyFractionalEvictFirstEvictFirstOp");
    assert("CreatepolicyFractionalEvictFirstEvictFirstOp"@ =~= recipe_op_type(
        policy_of(CachePolicyPriority::EvictFirst, CachePolicySecondaryPriority::EvictFirst),
    ));
    reveal_strlit("CreatepolicyFractionalEvictUnchangedEvictFirstOp");
    assert("CreatepolicyFractionalEvictUnchangedEvictFirstOp"@ =~= recipe_op_type(
        policy_of(CachePolicyPriority::EvictUnchanged, CachePolicySecondaryPriority::EvictFirst),
    ));
}

/// The qualifiers of the four priorities.
proof fn qualifiers_as_spelled()
    ensures
        "L2::evict_last"@ == CachePolicyPriority::EvictLast.qualifier(),
        "L2::evict_normal"@ == CachePolicyPriority::EvictNormal.qualifier(),
        "L2::evict_first"@ == CachePolicyPriority::EvictFirst.qualifier(),
        "L2::evict_unchanged"@ == CachePolicyPriority::EvictUnchanged.qualifier(),
{
    reveal_strlit("L2::");
    reveal_strlit("evict_last");
    reveal_strlit("L2::evict_last");
    assert("L2::evict_last"@ =~= CachePolicyPriority::EvictLast.qualifier());
    reveal_strlit("evict_normal");
    reveal_strlit("L2::evict_normal");
    assert("L2::evict_normal"@ =~= CachePolicyPriority::EvictNormal.qualifier());
    reveal_strlit("evict_first");
    reveal_strlit("L2::evict_first");
    assert("L2::evict_first"@ =~= CachePolicyPriority::EvictFirst.qualifier());
    reveal_strlit("evict_unchanged");
    reveal_strlit("L2::evict_unchanged");
    assert("L2::evict_unchanged"@ =~= CachePolicyPriority::EvictUnchanged.qualifier());
}

/// Returns the closed recipe for one `createpolicy` variant.
///
/// Every combination of form, primary and secondary is its own intrinsic
/// because the qualifiers are compile-time instruction modifiers.
pub fn cache_policy_recipe(
    form: CachePolicyForm,
    primary: CachePolicyPriority,
    secondary: CachePolicySecondaryPriority,
) -> (r: CachePolicyRecipe)
    ensures
        is_recipe(r, (CachePolicy { form, primary, secondary })),
{
    proof {
        ids_as_spelled();
        abi_ids_as_spelled();
        operation_keys_as_spelled();
        op_types_as_spelled();
        qualifiers_as_spelled();
    }
    let recipe = match (primary, secondary) {
        (CachePolicyPriority::EvictLast, CachePolicySecondaryPriority::EvictUnchanged) => CachePolicyRecipe {
            id: "createpolicy_fractional_evict_last",
            abi_id: "i1039",
            operation_key: "memory.cache_policy.l2.fractional.evict_last",
            dialect_op_type: "CreatepolicyFractionalEvictLastOp",
            modifiers: vec!["fractional", "L2::evict_last", "b64"],
        },
        (CachePolicyPriority::EvictNormal, CachePolicySecondaryPriority::EvictUnchanged) => CachePolicyRecipe {
            id: "createpolicy_fractional_evict_normal",
            abi_id: "i1040",
            operation_key: "memory.cache_policy.l2.fractional.evict_normal",
            dialect_op_type: "CreatepolicyFractionalEvictNormalOp",
            modifiers: vec!["fractional", "L2::evict_normal", "b64"],
        },
        (CachePolicyPriority::EvictFirst, CachePolicySecondaryPriority::EvictUnchanged) => CachePolicyRecipe {
            id: "createpolicy_fractional_evict_first",
            abi_id: "i1041",
            operation_key: "memory.cache_policy.l2.fractional.evict_first",
            dialect_op_type: "CreatepolicyFractionalEvictFirstOp",
            modifiers: vec!["fractional", "L2::evict_first", "b64"],
        },
        (CachePolicyPriority::EvictUnchanged, CachePolicySecondaryPriority::EvictUnchanged) => CachePolicyRecipe {
            id: "createpolicy_fractional_evict_unchanged",
            abi_id: "i1042",
            operation_key: "memory.cache_policy.l2.fractional.evict_unchanged",
            dialect_op_type: "CreatepolicyFractionalEvictUnchangedOp",
            modifiers: vec!["fractional", "L2::evict_unchanged", "b64"],
        },
        (CachePolicyPriority::EvictLast, CachePolicySecondaryPriority::EvictFirst) => CachePolicyRecipe {
            id: "createpolicy_fractional_evict_last_evict_first",
            abi_id: "i1043",
            operation_key: "memory.cache_policy.l2.fractional.evict_last.evict_first",
            dialect_op_type: "CreatepolicyFractionalEvictLastEvictFirstOp",
            modifiers: vec!["fractional", "L2::evict_last", "L2::evict_first", "b64"],
        },
        (CachePolicyPriority::EvictNormal, CachePolicySecondaryPriority::EvictFirst) => CachePolicyRecipe {
            id: "createpolicy_fractional_evict_normal_evict_first",
            abi_id: "i1044",
            operation_key: "memory.cache_policy.l2.fractional.evict_normal.evict_first",
            dialect_op_type: "CreatepolicyFractionalEvictNormalEvictFirstOp",
            modifiers: vec!["fractional", "L2::evict_normal", "L2::evict_first", "b64"],
        },
        (CachePolicyPriority::EvictFirst, CachePolicySecondaryPriority::EvictFirst) => CachePolicyRecipe {
            id: "createpolicy_fractional_evict_first_evict_first",
            abi_id: "i1045",
            operation_key: "memory.cache_policy.l2.fractional.evict_first.evict_first",
            dialect_op_type: "CreatepolicyFractionalEvictFirstEvictFirstOp",
            modifiers: vec!["fractional", "L2::evict_first", "L2::evict_first", "b64"],
        },
        (CachePolicyPriority::EvictUnchanged, CachePolicySecondaryPriority::EvictFirst) => CachePolicyRecipe {
            id: "createpolicy_fractional_evict_unchanged_evict_first",
            abi_id: "i1046",
            operation_key: "memory.cache_policy.l2.fractional.evict_unchanged.evict_first",
            dialect_op_type: "CreatepolicyFractionalEvictUnchangedEvictFirstOp",
            modifiers: vec!["fractional", "L2::evict_unchanged", "L2::evict_first", "b64"],
        },
    };
    assert(slice_texts(recipe.modifiers@) =~= policy_of(primary, secondary).modifiers());
    recipe
}

/// The recipes of the eight policies, in full.
pub proof fn recipes_are_these_eight(recipe: CachePolicyRecipe, policy: CachePolicy)
    requires
        is_recipe(recipe, policy),
    ensures
        policy.primary == CachePolicyPriority::EvictLast && policy.secondary
            == CachePolicySecondaryPriority::EvictUnchanged ==> {
            &&& recipe.id@ == "createpolicy_fractional_evict_last"@
            &&& recipe.abi_id@ == "i1039"@
            &&& recipe.operation_key@
                == "memory.cache_policy.l2.fractional.evict_last"@
            &&& recipe.dialect_op_type@ == "CreatepolicyFractionalEvictLastOp"@
            &&& slice_texts(recipe.modifiers@) == seq!["fractional"@, "L2::evict_last"@, "b64"@]
        },
        policy.primary == CachePolicyPriority::EvictNormal && policy.secondary
            == CachePolicySecondaryPriority::EvictUnchanged ==> {
            &&& recipe.id@ == "createpolicy_fractional_evict_normal"@
            &&& recipe.abi_id@ == "i1040"@
            &&& recipe.operation_key@
                == "memory.cache_policy.l2.fractional.evict_normal"@
            &&& recipe.dialect_op_type@ == "CreatepolicyFractionalEvictNormalOp"@
            &&& slice_texts(recipe.modifiers@) == seq!["fractional"@, "L2::evict_normal"@, "b64"@]
        },
        policy.primary == CachePolicyPriority::EvictFirst && policy.secondary
            == CachePolicySecondaryPriority::EvictUnchanged ==> {
            &&& recipe.id@ == "createpolicy_fractional_evict_first"@
            &&& recipe.abi_id@ == "i1041"@
            &&& recipe.operation_key@
                == "memory.cache_policy.l2.fractional.evict_first"@
            &&& recipe.dialect_op_type@ == "CreatepolicyFractionalEvictFirstOp"@
            &&& slice_texts(recipe.modifiers@) == seq!["fractional"@, "L2::evict_first"@, "b64"@]
        },
        policy.primary == CachePolicyPriority::EvictUnchanged && policy.secondary
            == CachePolicySecondaryPriority::EvictUnchanged ==> {
            &&& recipe.id@ == "createpolicy_fractional_evict_unchanged"@
            &&& recipe.abi_id@ == "i1042"@
            &&& recipe.operation_key@
                == "memory.cache_policy.l2.fractional.evict_unchanged"@
            &&& recipe.dialect_op_type@ == "CreatepolicyFractionalEvictUnchangedOp"@
            &&& slice_texts(recipe.modifiers@) == seq!["fractional"@, "L2::evict_unchanged"@, "b64"@]
        },
        policy.primary == CachePolicyPriority::EvictLast && policy.secondary
            == CachePolicySecondaryPriority::EvictFirst ==> {
            &&& recipe.id@ == "createpolicy_fractional_evict_last_evict_first"@
            &&& recipe.abi_id@ == "i1043"@
            &&& recipe.operation_key@
                == "memory.cache_policy.l2.fractional.evict_last.evict_first"@
            &&& recipe.dialect_op_type@ == "CreatepolicyFractionalEvictLastEvictFirstOp"@
            &&& slice_texts(recipe.modifiers@) == seq!["fractional"@, "L2::evict_last"@, "L2::evict_first"@, "b64"@]
        },
        policy.primary == CachePolicyPriority::EvictNormal && policy.secondary
            == CachePolicySecondaryPriority::EvictFirst ==> {
            &&& recipe.id@ == "createpolicy_fractional_evict_normal_evict_first"@
            &&& recipe.abi_id@ == "i1044"@
            &&& recipe.operation_key@
                == "memory.cache_policy.l2.fractional.evict_normal.evict_first"@
            &&& recipe.dialect_op_type@ == "CreatepolicyFractionalEvictNormalEvictFirstOp"@
            &&& slice_texts(recipe.modifiers@) == seq!["fractional"@, "L2::evict_normal"@, "L2::evict_first"@, "b64"@]
        },
        policy.primary == CachePolicyPriority::EvictFirst && policy.secondary
            == CachePolicySecondaryPriority::EvictFirst ==> {
            &&& recipe.id@ == "createpolicy_fractional_evict_first_evict_first"@
            &&& recipe.abi_id@ == "i1045"@
            &&& recipe.operation_key@
                == "memory.cache_policy.l2.fractional.evict_first.evict_first"@
            &&& recipe.dialect_op_type@ == "CreatepolicyFractionalEvictFirstEvictFirstOp"@
            &&& slice_texts(recipe.modifiers@) == seq!["fractional"@, "L2::evict_first"@, "L2::evict_first"@, "b64"@]
        },
        policy.primary == CachePolicyPriority::EvictUnchanged && policy.secondary
            == CachePolicySecondaryPriority::EvictFirst ==> {
            &&& recipe.id@ == "createpolicy_fractional_evict_unchanged_evict_first"@
            &&& recipe.abi_id@ == "i1046"@
            &&& recipe.operation_key@
                == "memory.cache_policy.l2.fractional.evict_unchanged.evict_first"@
            &&& recipe.dialect_op_type@ == "CreatepolicyFractionalEvictUnchangedEvictFirstOp"@
            &&& slice_texts(recipe.modifiers@) == seq!["fractional"@, "L2::evict_unchanged"@, "L2::evict_first"@, "b64"@]
        },
{
    ids_as_spelled();
    abi_ids_as_spelled();
    operation_keys_as_spelled();
    op_types_as_spelled();
    qualifiers_as_spelled();
    assert(policy == policy_of(policy.primary, policy.secondary));
    if policy.secondary == CachePolicySecondaryPriority::EvictFirst {
        assert(policy.modifiers() =~= seq![
            "fractional"@,
            policy.primary.qualifier(),
            "L2::evict_first"@,
            "b64"@,
        ]);
    } else {
        assert(policy.modifiers() =~= seq!["fractional"@, policy.primary.qualifier(), "b64"@]);
    }
}

/// Distinct policies have distinct identifiers, ABI identifiers, operation
/// keys and dialect operation types.
pub proof fn recipes_are_distinct(a: CachePolicy, b: CachePolicy)
    requires
        a != b,
    ensures
        recipe_id(a) != recipe_id(b),
        recipe_abi_id(a) != recipe_abi_id(b),
        recipe_operation_key(a) != recipe_operation_key(b),
        recipe_op_type(a) != recipe_op_type(b),
{
    reveal_strlit("evict_last");
    reveal_strlit("evict_normal");
    reveal_strlit("evict_first");
    reveal_strlit("evict_unchanged");
    reveal_strlit("EvictLast");
    reveal_strlit("EvictNormal");
    reveal_strlit("EvictFirst");
    reveal_strlit("EvictUnchanged");
    reveal_strlit("_evict_first");
    reveal_strlit(".evict_first");
    reveal_strlit("");
    reveal_strlit("Op");
    reveal_strlit("createpolicy_fractional_");
    reveal_strlit("memory.cache_policy.l2.fractional.");
    reveal_strlit("CreatepolicyFractional");
    assert(recipe_id(a) != recipe_id(b)) by {
        let x = recipe_id(a);
        let y = recipe_id(b);
        assert(x.len() == y.len() && x[30] == y[30] && x[31] == y[31] ==> a == b);
    }
    assert(recipe_operation_key(a) != recipe_operation_key(b)) by {
        let x = recipe_operation_key(a);
        let y = recipe_operation_key(b);
        assert(x.len() == y.len() && x[40] == y[40] && x[41] == y[41] ==> a == b);
    }
    assert(recipe_op_type(a) != recipe_op_type(b)) by {
        let x = recipe_op_type(a);
        let y = recipe_op_type(b);
        assert(x.len() == y.len() && x[27] == y[27] && x[28] == y[28] ==> a == b);
    }
    assert(recipe_abi_id(a) != recipe_abi_id(b)) by {
        let m = 1039 + ordinal(a.primary) + (if a.secondary.is_spelled() {
            4nat
        } else {
            0nat
        });
        let n = 1039 + ordinal(b.primary) + (if b.secondary.is_spelled() {
            4nat
        } else {
            0nat
        });
        decimal_is_injective(m, n);
        let x = recipe_abi_id(a);
        let y = recipe_abi_id(b);
        assert(x.skip("i"@.len() as int) =~= decimal(m));
        assert(y.skip("i"@.len() as int) =~= decimal(n));
    }
}

/// Whether the identity of a record is the one of its policy.
pub open spec fn has_recipe_identity(policy: OverlayIntrinsic, contract: CachePolicy) -> bool {
    &&& policy.id@ == recipe_id(contract)
    &&& policy.abi_id@ == recipe_abi_id(contract)
    &&& policy.operation_key@ == recipe_operation_key(contract)
}

/// Whether the Rust interface of a record is the one of its policy: a safe
/// function from a fraction to an opaque word.
pub open spec fn has_recipe_api(policy: OverlayIntrinsic, contract: CachePolicy) -> bool {
    &&& policy.rust_module@ == "cache_policy"@
    &&& policy.rust_name@ == recipe_id(contract)
    &&& texts(policy.rust_arguments@) == seq!["f32"@]
    &&& policy.rust_result@ == "u64"@
    &&& policy.safe
    &&& policy.must_use
    &&& policy.safe_allowlist_reason is Some
    &&& !is_blank(policy.safe_allowlist_reason->0@)
    &&& policy.public_rust_path@ == "cuda_intrinsics::cache_policy::"@ + recipe_id(contract)
    &&& texts(policy.compatibility_rust_paths@) == seq![
        "cuda_device::cache_policy::"@ + recipe_id(contract),
    ]
}

/// Whether the dialect operation and the lowering of a record are the ones of
/// its policy.
pub open spec fn has_recipe_dialect(policy: OverlayIntrinsic, contract: CachePolicy) -> bool {
    &&& policy.dialect_op_type@ == recipe_op_type(contract)
    &&& policy.dialect_op_name@ == "nvvm."@ + recipe_id(contract)
    &&& texts(policy.dialect_operands@) == seq!["f32"@]
    &&& texts(policy.dialect_results@) == seq!["i64"@]
    &&& policy.lowering@ == "generated_cache_policy_inline_ptx"@
}

/// Whether a record states the effects and the target floor of the family.
pub open spec fn has_family_effects(policy: OverlayIntrinsic) -> bool {
    &&& policy.pure
    &&& policy.memory@ == "none"@
    &&& !policy.convergent
    &&& policy.execution_scope@ == "thread"@
    &&& policy.minimum_ptx@ == "7.4"@
    &&& optional_text(policy.minimum_sm) == Some("sm_80"@)
    &&& policy.ptx_result@ == "u64"@
    &&& policy.targets@ == "all"@
}

/// Whether a record cites the section that documents the instruction.
pub open spec fn has_family_provenance(policy: OverlayIntrinsic) -> bool {
    &&& policy.ptx_isa_version@ == "9.3"@
    &&& policy.ptx_isa_section@ == CACHE_POLICY_ISA_SECTION@
    &&& policy.ptx_isa_url@ == CACHE_POLICY_ISA_URL@
}

/// Whether a record expects the instruction of its policy.
pub open spec fn has_recipe_ptx(policy: OverlayIntrinsic, contract: CachePolicy) -> bool {
    &&& policy.expected_ptx.mnemonic@ == "createpolicy"@
    &&& texts(policy.expected_ptx.modifiers@) == contract.modifiers()
    &&& policy.expected_ptx.operands@ == seq![OperandPattern::Register, OperandPattern::Register]
}

/// Whether the source of a record is the instruction of its policy.
pub open spec fn is_recipe_source(source: IntrinsicSource, contract: CachePolicy) -> bool {
    match source {
        IntrinsicSource::PtxNative { instruction } => instruction@ == contract.instruction(),
        IntrinsicSource::LlvmDeclaration { .. } => false,
    }
}

/// Whether a route is plain inline PTX with some evidence.
pub open spec fn is_plain_route(route: BackendLowering) -> bool {
    &&& route.mechanism == BackendLoweringMechanism::InlinePtx
    &&& route.targets is None
    &&& route.minimum_ptx is None
    &&& route.minimum_sm is None
    &&& !is_blank(route.evidence_profile@)
}

/// Whether a record goes to both backends, in order, as plain inline PTX.
pub open spec fn has_plain_routes(policy: OverlayIntrinsic) -> bool {
    &&& policy.backend_lowerings@.len() == 2
    &&& policy.backend_lowerings@[0].backend == IntrinsicBackend::LlvmNvptx
    &&& policy.backend_lowerings@[1].backend == IntrinsicBackend::LibNvvm
    &&& is_plain_route(policy.backend_lowerings@[0])
    &&& is_plain_route(policy.backend_lowerings@[1])
}

/// Why a record of the family is refused, if it is: the first rule that it
/// breaks.
pub open spec fn cache_policy_refusal(
    policy: OverlayIntrinsic,
    source: IntrinsicSource,
    declared: bool,
) -> Option<Seq<char>> {
    match policy.cache_policy {
        None => Some(policy.id@ + " has no closed cache-policy contract"@),
        Some(contract) => if !has_recipe_identity(policy, contract) {
            Some(policy.id@ + " cache-policy identity does not match its closed recipe"@)
        } else if !has_recipe_api(policy, contract) {
            Some(policy.id@ + " must preserve its reviewed safe cache-policy API"@)
        } else if !has_recipe_dialect(policy, contract) {
            Some(policy.id@ + " is outside the closed cache-policy dialect and lowering recipe"@)
        } else if !has_family_effects(policy) {
            Some(policy.id@ + " cache-policy effects, carrier, or target floor disagree"@)
        } else if !has_family_provenance(policy) {
            Some(
                policy.id@
                    + " cache-policy PTX provenance does not match its reviewed instruction section"@,
            )
        } else if !has_recipe_ptx(policy, contract) {
            Some(
                policy.id@ + " expected PTX does not match its exact createpolicy instruction"@,
            )
        } else if !is_recipe_source(source, contract) || declared {
            Some(policy.id@ + " cache-policy source does not match its PTX-native recipe"@)
        } else if !has_plain_routes(policy) {
            Some(policy.id@ + " cache-policy backend route changed"@)
        } else if carries_other_contract(policy, ContractFamily::CachePolicy) {
            Some(other_contract_text(policy.id@, "cache_policy"@))
        } else {
            None
        },
    }
}

fn plain_route(route: &BackendLowering) -> (r: bool)
    ensures
        r == is_plain_route(*route),
{
    route.mechanism == BackendLoweringMechanism::InlinePtx && route.targets.is_none()
        && route.minimum_ptx.is_none() && route.minimum_sm.is_none() && !blank(
        route.evidence_profile.as_str(),
    )
}

/// Checks a record against the closed recipe of its policy.
pub fn validate_cache_policy_policy(
    policy: &OverlayIntrinsic,
    source: &IntrinsicSource,
    declaration: Option<&ImportedIntrinsic>,
) -> (r: Result<(), ResolveError>)
    ensures
        refusal(r) == cache_policy_refusal(*policy, *source, declaration is Some),
{
    let contract = match &policy.cache_policy {
        Some(contract) => *contract,
        None => {
            return Err(complain(policy, " has no closed cache-policy contract"));
        },
    };
    let recipe = cache_policy_recipe(contract.form, contract.primary, contract.secondary);
    if !(same_text(policy.id.as_str(), recipe.id) && same_text(
        policy.abi_id.as_str(),
        recipe.abi_id,
    ) && same_text(policy.operation_key.as_str(), recipe.operation_key)) {
        return Err(
            complain(policy, " cache-policy identity does not match its closed recipe"),
        );
    }
    let public_path = "cuda_intrinsics::cache_policy::".to_owned().concat(recipe.id);
    let compatibility_path = "cuda_device::cache_policy::".to_owned().concat(recipe.id);
    if !(same_text(policy.rust_module.as_str(), "cache_policy") && same_text(
        policy.rust_name.as_str(),
        recipe.id,
    ) && is_only_text(&policy.rust_arguments, "f32") && same_text(
        policy.rust_result.as_str(),
        "u64",
    ) && policy.safe && policy.must_use && is_given(&policy.safe_allowlist_reason)
        && policy.public_rust_path == public_path && is_only_text(
        &policy.compatibility_rust_paths,
        compatibility_path.as_str(),
    )) {
        return Err(complain(policy, " must preserve its reviewed safe cache-policy API"));
    }
    let op_name = "nvvm.".to_owned().concat(recipe.id);
    if !(same_text(policy.dialect_op_type.as_str(), recipe.dialect_op_type)
        && policy.dialect_op_name == op_name && is_only_text(&policy.dialect_operands, "f32")
        && is_only_text(&policy.dialect_results, "i64") && same_text(
        policy.lowering.as_str(),
        "generated_cache_policy_inline_ptx",
    )) {
        return Err(
            complain(policy, " is outside the closed cache-policy dialect and lowering recipe"),
        );
    }
    if !(policy.pure && same_text(policy.memory.as_str(), "none") && !policy.convergent
        && same_text(policy.execution_scope.as_str(), "thread") && same_text(
        policy.minimum_ptx.as_str(),
        "7.4",
    ) && is_text(&policy.minimum_sm, "sm_80") && same_text(policy.ptx_result.as_str(), "u64")
        && same_text(policy.targets.as_str(), "all")) {
        return Err(
            complain(policy, " cache-policy effects, carrier, or target floor disagree"),
        );
    }
    if !(same_text(policy.ptx_isa_version.as_str(), "9.3") && same_text(
        policy.ptx_isa_section.as_str(),
        CACHE_POLICY_ISA_SECTION,
    ) && same_text(policy.ptx_isa_url.as_str(), CACHE_POLICY_ISA_URL)) {
        return Err(
            complain(
                policy,
                " cache-policy PTX provenance does not match its reviewed instruction section",
            ),
        );
    }
    let modifiers = owned_texts(&recipe.modifiers);
    let operands: Vec<OperandPattern> = vec![OperandPattern::Register, OperandPattern::Register];
    assert(operands@ =~= seq![OperandPattern::Register, OperandPattern::Register]);
    if !(same_text(policy.expected_ptx.mnemonic.as_str(), "createpolicy") && same_texts(
        &policy.expected_ptx.modifiers,
        &modifiers,
    ) && same_patterns(&policy.expected_ptx.operands, &operands)) {
        return Err(
            complain(policy, " expected PTX does not match its exact createpolicy instruction"),
        );
    }
    let native = match source {
        IntrinsicSource::PtxNative { instruction } => {
            *instruction == contract.ptx_instruction()
        },
        IntrinsicSource::LlvmDeclaration { .. } => false,
    };
    if !(native && declaration.is_none()) {
        return Err(
            complain(policy, " cache-policy source does not match its PTX-native recipe"),
        );
    }
    if !(policy.backend_lowerings.len() == 2 && policy.backend_lowerings[0].backend
        == IntrinsicBackend::LlvmNvptx && policy.backend_lowerings[1].backend
        == IntrinsicBackend::LibNvvm && plain_route(&policy.backend_lowerings[0]) && plain_route(
        &policy.backend_lowerings[1],
    )) {
        return Err(complain(policy, " cache-policy backend route changed"));
    }
    ensure_no_other_family_contract(policy, ContractFamily::CachePolicy, "cache_policy")
}

/// Valid records with one identifier are records of one policy.
pub proof fn valid_identifiers_name_one_policy(
    a: OverlayIntrinsic,
    a_source: IntrinsicSource,
    b: OverlayIntrinsic,
    b_source: IntrinsicSource,
)
    requires
        cache_policy_refusal(a, a_source, false) is None,
        cache_policy_refusal(b, b_source, false) is None,
        a.id@ == b.id@,
    ensures
        a.cache_policy == b.cache_policy,
        a.abi_id@ == b.abi_id@,
{
    let x = a.cache_policy->0;
    let y = b.cache_policy->0;
    if x != y {
        recipes_are_distinct(x, y);
    }
}

} // verus!
