//! Which records are accepted, field by field, and what is said of the others.

use crate::catalog::cache_policy::{
    CachePolicy, CachePolicyForm, CachePolicyPriority, CachePolicySecondaryPriority,
};
use crate::catalog::tcgen05::{
    RuntimeValidation, Tcgen05, Tcgen05Adapter, Tcgen05Admission, Tcgen05LdRed,
    Tcgen05LdRedAdmissionVariant, Tcgen05LdRedElement, Tcgen05LdShape, Tcgen05Operation,
    Tcgen05SourceContract,
};
use crate::catalog::{
    BackendLoweringMechanism, ImportedIntrinsic, IntrinsicSource, OperandPattern, OverlayIntrinsic,
};
use crate::lower::IntrinsicBackend;
use crate::resolve::cache_policy::{
    cache_policy_refusal, is_recipe, CachePolicyRecipe, CACHE_POLICY_ISA_SECTION,
    CACHE_POLICY_ISA_URL,
};
use crate::resolve::ld_red::{
    is_supported, ld_red_id, ld_red_llvm_arguments, ld_red_llvm_results, ld_red_llvm_symbol,
    ld_red_modifiers, ld_red_op_type, ld_red_operands, ld_red_operation_key, ld_red_properties,
    ld_red_rust_result, ld_red_source_record, ld_red_summary, registers,
};
use crate::resolve::ld_red_record::{
    is_materialized, ld_red_adapter, ld_red_classes, ld_red_compatibility_path,
    ld_red_dialect_operands, ld_red_dialect_results, ld_red_public_path, ld_red_refusal,
    ld_red_rust_arguments,
};
use crate::resolve::{
    carries_other_contract, other_contract_text, refusal, ContractFamily, ResolveError,
};
use crate::text::{is_blank, optional_text, slice_texts, texts};
use vstd::prelude::*;

verus! {

/// A record belongs to one family: it carries no contract of another one.
pub proof fn records_carry_one_contract(record: OverlayIntrinsic, id: Seq<char>, label: Seq<char>)
    ensures
        carries_other_contract(record, ContractFamily::CachePolicy) <==> record.tcgen05 is Some
            || record.other_contracts@.len() > 0,
        carries_other_contract(record, ContractFamily::Tcgen05) <==> record.cache_policy is Some
            || record.other_contracts@.len() > 0,
        other_contract_text(id, label) == id + " "@ + label
            + " record carries another family contract"@,
{
}

/// A check passes exactly if it returns no error, and its message is the error's.
pub proof fn refusals_are_the_errors(error: ResolveError)
    ensures
        refusal(Ok(())) is None,
        refusal(Err(error)) == Some(error.message@),
{
}

/// The instruction of a policy is its qualifiers in order, and the qualifier of
/// the rest is spelled only if it is to be evicted first.
pub proof fn policies_spell_their_priorities(policy: CachePolicy)
    ensures
        ({
            let start = "createpolicy.fractional."@;
            let end = if policy.secondary == CachePolicySecondaryPriority::EvictFirst {
                ".L2::evict_first"@ + ".b64"@
            } else {
                ".b64"@
            };
            &&& policy.primary == CachePolicyPriority::EvictLast ==> policy.instruction() == start
                + "L2::evict_last"@ + end
            &&& policy.primary == CachePolicyPriority::EvictNormal ==> policy.instruction() == start
                + "L2::evict_normal"@ + end
            &&& policy.primary == CachePolicyPriority::EvictFirst ==> policy.instruction() == start
                + "L2::evict_first"@ + end
            &&& policy.primary == CachePolicyPriority::EvictUnchanged ==> policy.instruction()
                == start + "L2::evict_unchanged"@ + end
        }),
{
    reveal_strlit("");
    reveal_strlit("L2::");
    reveal_strlit("evict_last");
    reveal_strlit("evict_normal");
    reveal_strlit("evict_first");
    reveal_strlit("evict_unchanged");
    reveal_strlit("L2::evict_last");
    reveal_strlit("L2::evict_normal");
    reveal_strlit("L2::evict_first");
    reveal_strlit("L2::evict_unchanged");
    assert("L2::evict_last"@ =~= "L2::"@ + "evict_last"@);
    assert("L2::evict_normal"@ =~= "L2::"@ + "evict_normal"@);
    assert("L2::evict_first"@ =~= "L2::"@ + "evict_first"@);
    assert("L2::evict_unchanged"@ =~= "L2::"@ + "evict_unchanged"@);
    let q = policy.primary.qualifier();
    let start = "createpolicy.fractional."@;
    if policy.secondary == CachePolicySecondaryPriority::EvictFirst {
        assert(policy.instruction() =~= start + q + (".L2::evict_first"@ + ".b64"@));
    } else {
        assert(policy.instruction() =~= start + q + ".b64"@);
    }
}

/// Whether both routes of a record are inline PTX without floors of their own,
/// the first one through LLVM.
pub open spec fn goes_plainly_to_both(record: OverlayIntrinsic) -> bool {
    let routes = record.backend_lowerings@;
    &&& routes.len() == 2
    &&& routes[0].backend == IntrinsicBackend::LlvmNvptx
    &&& routes[1].backend == IntrinsicBackend::LibNvvm
    &&& routes[0].mechanism == BackendLoweringMechanism::InlinePtx
    &&& routes[1].mechanism == BackendLoweringMechanism::InlinePtx
    &&& routes[0].targets is None && routes[1].targets is None
    &&& routes[0].minimum_ptx is None && routes[1].minimum_ptx is None
    &&& routes[0].minimum_sm is None && routes[1].minimum_sm is None
    &&& !is_blank(routes[0].evidence_profile@) && !is_blank(routes[1].evidence_profile@)
}

/// What is said of the record of a policy: nothing if every field is as its
/// recipe and its family ask, and otherwise the first part that is not.
pub proof fn policy_records_are_checked_part_by_part(
    record: OverlayIntrinsic,
    source: IntrinsicSource,
    declared: bool,
    recipe: CachePolicyRecipe,
)
    requires
        record.cache_policy is Some,
        is_recipe(recipe, record.cache_policy->0),
    ensures
        ({
            let said = cache_policy_refusal(record, source, declared);
            let named = record.id@ == recipe.id@ && record.abi_id@ == recipe.abi_id@
                && record.operation_key@ == recipe.operation_key@;
            let offered = record.rust_module@ == "cache_policy"@ && record.rust_name@ == recipe.id@
                && texts(record.rust_arguments@) == seq!["f32"@] && record.rust_result@ == "u64"@
                && record.safe && record.must_use && record.safe_allowlist_reason is Some
                && !is_blank(record.safe_allowlist_reason->0@) && record.public_rust_path@
                == "cuda_intrinsics::cache_policy::"@ + recipe.id@ && texts(
                record.compatibility_rust_paths@,
            ) == seq!["cuda_device::cache_policy::"@ + recipe.id@];
            let carried = record.dialect_op_type@ == recipe.dialect_op_type@
                && record.dialect_op_name@ == "nvvm."@ + recipe.id@ && texts(
                record.dialect_operands@,
            ) == seq!["f32"@] && texts(record.dialect_results@) == seq!["i64"@] && record.lowering@
                == "generated_cache_policy_inline_ptx"@;
            let harmless = record.pure && record.memory@ == "none"@ && !record.convergent
                && record.execution_scope@ == "thread"@ && record.minimum_ptx@ == "7.4"@
                && optional_text(record.minimum_sm) == Some("sm_80"@) && record.ptx_result@
                == "u64"@ && record.targets@ == "all"@;
            let cited = record.ptx_isa_version@ == "9.3"@ && record.ptx_isa_section@
                == "9.7.9.19 Data Movement and Conversion Instructions: createpolicy"@
                && record.ptx_isa_url@
                == "https://docs.nvidia.com/cuda/parallel-thread-execution/#data-movement-and-conversion-instructions-createpolicy"@;
            let expected = record.expected_ptx.mnemonic@ == "createpolicy"@ && texts(
                record.expected_ptx.modifiers@,
            ) == slice_texts(recipe.modifiers@) && record.expected_ptx.operands@ == seq![
                OperandPattern::Register,
                OperandPattern::Register,
            ];
            let native = !declared && (source matches IntrinsicSource::PtxNative { instruction }
                && instruction@ == record.cache_policy->0.instruction());
            let routed = goes_plainly_to_both(record);
            let alone = record.tcgen05 is None && record.other_contracts@.len() == 0;
            &&& said is None <==> named && offered && carried && harmless && cited && expected
                && native && routed && alone
            &&& !named ==> said == Some(
                record.id@ + " cache-policy identity does not match its closed recipe"@,
            )
            &&& named && !offered ==> said == Some(
                record.id@ + " must preserve its reviewed safe cache-policy API"@,
            )
            &&& named && offered && !carried ==> said == Some(
                record.id@ + " is outside the closed cache-policy dialect and lowering recipe"@,
            )
            &&& named && offered && carried && !harmless ==> said == Some(
                record.id@ + " cache-policy effects, carrier, or target floor disagree"@,
            )
            &&& named && offered && carried && harmless && !cited ==> said == Some(
                record.id@
                    + " cache-policy PTX provenance does not match its reviewed instruction section"@,
            )
            &&& named && offered && carried && harmless && cited && !expected ==> said == Some(
                record.id@ + " expected PTX does not match its exact createpolicy instruction"@,
            )
            &&& named && offered && carried && harmless && cited && expected && !native ==> said
                == Some(record.id@ + " cache-policy source does not match its PTX-native recipe"@)
            &&& named && offered && carried && harmless && cited && expected && native && !routed
                ==> said == Some(record.id@ + " cache-policy backend route changed"@)
            &&& named && offered && carried && harmless && cited && expected && native && routed
                && !alone ==> said == Some(
                record.id@ + " "@ + "cache_policy"@ + " record carries another family contract"@,
            )
        }),
{
}

/// A record without a policy is refused before anything else.
pub proof fn records_without_a_policy_are_refused(
    record: OverlayIntrinsic,
    source: IntrinsicSource,
    declared: bool,
)
    requires
        record.cache_policy is None,
    ensures
        cache_policy_refusal(record, source, declared) == Some(
            record.id@ + " has no closed cache-policy contract"@,
        ),
{
}

/// Every policy has a recipe, whatever its form.
pub proof fn policies_are_fractional(policy: CachePolicy)
    ensures
        policy.form == CachePolicyForm::Fractional,
        CACHE_POLICY_ISA_SECTION@
            == "9.7.9.19 Data Movement and Conversion Instructions: createpolicy"@,
        CACHE_POLICY_ISA_URL@
            == "https://docs.nvidia.com/cuda/parallel-thread-execution/#data-movement-and-conversion-instructions-createpolicy"@,
{
}

/// What the interfaces of a reducing load are: only a split shape takes an
/// offset, and has an internal path and an adapter of its own.
pub proof fn interfaces_follow_the_shape(ld_red: Tcgen05LdRed)
    ensures
        ({
            let split = ld_red.shape == Tcgen05LdShape::M16x32bx2;
            let results = ld_red_dialect_results(ld_red);
            &&& !split ==> ld_red_rust_arguments(ld_red) == seq!["u32"@]
            &&& split ==> ld_red_rust_arguments(ld_red) == seq!["u32"@, "i64"@]
            &&& !split ==> ld_red_dialect_operands(ld_red) == seq!["i32"@]
            &&& split ==> ld_red_dialect_operands(ld_red) == seq!["i32"@, "i64"@]
            &&& results.len() == registers(ld_red) + 1
            &&& forall|i: int|
                0 <= i < results.len() ==> #[trigger] results[i] == (if ld_red.element
                    == Tcgen05LdRedElement::F32 {
                    "f32"@
                } else {
                    "i32"@
                })
            &&& ld_red_public_path(ld_red) == "cuda_intrinsics::tcgen05::"@ + ld_red_id(ld_red)
            &&& !split ==> ld_red_compatibility_path(ld_red) == "cuda_device::tcgen05::"@
                + ld_red_id(ld_red)
            &&& split ==> ld_red_compatibility_path(ld_red) == "cuda_device::tcgen05::"@ + ("__"@
                + ld_red_id(ld_red))
            &&& !split ==> ld_red_adapter(ld_red)
                == Tcgen05Adapter::TmemInjectReductionToRegistersAndValue
            &&& split ==> ld_red_adapter(ld_red)
                == Tcgen05Adapter::TmemHalfSplitOffsetInjectReductionToRegistersAndValue
            &&& ld_red_classes() == seq![
                "SDPatternOperator"@,
                "Intrinsic"@,
                "DefaultAttrsIntrinsic"@,
                "DefaultAttrsIntrinsicFlags"@,
                "NVVM_TCGEN05_LD_RED"@,
            ]
        }),
{
    let split = ld_red.shape == Tcgen05LdShape::M16x32bx2;
    assert(!split ==> ld_red_rust_arguments(ld_red) =~= seq!["u32"@]);
    assert(split ==> ld_red_rust_arguments(ld_red) =~= seq!["u32"@, "i64"@]);
    assert(!split ==> ld_red_dialect_operands(ld_red) =~= seq!["i32"@]);
    assert(split ==> ld_red_dialect_operands(ld_red) =~= seq!["i32"@, "i64"@]);
}

/// Whether a contract is that of one reducing load and of nothing else.
pub open spec fn is_contract_of(
    contract: Tcgen05,
    ld_red: Tcgen05LdRed,
    validation: RuntimeValidation,
) -> bool {
    &&& contract.operation == Tcgen05Operation::LdRed
    &&& contract.ld_red == Some(ld_red)
    &&& contract.cp is None && contract.ld is None && contract.st is None && contract.mma is None
    &&& contract.adapter == (if ld_red.shape == Tcgen05LdShape::M16x32bx2 {
        Tcgen05Adapter::TmemHalfSplitOffsetInjectReductionToRegistersAndValue
    } else {
        Tcgen05Adapter::TmemInjectReductionToRegistersAndValue
    })
    &&& contract.source_contract == Tcgen05SourceContract::LlvmCustomLoweringWithoutSelection
    &&& contract.runtime_validation == validation
}

/// Whether both routes of a record are inline PTX from version 8.8 on, and only
/// the second one, through libNVVM, names the targets.
pub open spec fn goes_to_both_from_8_8(record: OverlayIntrinsic) -> bool {
    let routes = record.backend_lowerings@;
    &&& routes.len() == 2
    &&& routes[0].backend == IntrinsicBackend::LlvmNvptx
    &&& routes[1].backend == IntrinsicBackend::LibNvvm
    &&& routes[0].mechanism == BackendLoweringMechanism::InlinePtx
    &&& routes[1].mechanism == BackendLoweringMechanism::InlinePtx
    &&& routes[0].targets is None
    &&& optional_text(routes[1].targets) == Some("sm_103a|sm_110a"@)
    &&& optional_text(routes[0].minimum_ptx) == Some("8.8"@)
    &&& optional_text(routes[1].minimum_ptx) == Some("8.8"@)
    &&& routes[0].minimum_sm is None && routes[1].minimum_sm is None
    &&& !is_blank(routes[0].evidence_profile@) && !is_blank(routes[1].evidence_profile@)
}

/// What is said of the record of a reducing load: nothing if the load is one and
/// every field is as it asks, and otherwise the first part that is not.
pub proof fn load_records_are_checked_part_by_part(
    record: OverlayIntrinsic,
    declaration: ImportedIntrinsic,
    contract: Tcgen05,
    ld_red: Tcgen05LdRed,
    token: Seq<char>,
    scope: Seq<char>,
)
    ensures
        ({
            let said = ld_red_refusal(record, declaration, contract, ld_red, token, scope);
            let known = is_supported(ld_red);
            let named = record.id@ == ld_red_id(ld_red) && record.operation_key@
                == ld_red_operation_key(ld_red) && record.source is None && optional_text(
                record.source_record,
            ) == Some(ld_red_source_record(ld_red)) && optional_text(record.llvm_symbol) == Some(
                ld_red_llvm_symbol(ld_red),
            ) && record.resolved_llvm_symbol is None && declaration.source_record@
                == ld_red_source_record(ld_red) && declaration.llvm_name@ == ld_red_llvm_symbol(
                ld_red,
            );
            let offered = record.rust_module@ == "tcgen05"@ && record.rust_name@ == ld_red_id(
                ld_red,
            ) && texts(record.rust_arguments@) == ld_red_rust_arguments(ld_red)
                && record.rust_result@ == ld_red_rust_result(ld_red) && !record.safe
                && record.must_use && record.safe_allowlist_reason is None
                && record.public_rust_path@ == ld_red_public_path(ld_red) && texts(
                record.compatibility_rust_paths@,
            ) == seq![ld_red_compatibility_path(ld_red)];
            let carried = record.dialect_op_type@ == ld_red_op_type(ld_red)
                && record.dialect_op_name@ == "nvvm."@ + ld_red_id(ld_red) && texts(
                record.dialect_operands@,
            ) == ld_red_dialect_operands(ld_red) && texts(record.dialect_results@)
                == ld_red_dialect_results(ld_red) && texts(record.llvm_arguments@)
                == ld_red_llvm_arguments(ld_red) && texts(record.llvm_results@)
                == ld_red_llvm_results(ld_red, token) && texts(declaration.arguments@)
                == ld_red_llvm_arguments(ld_red) && texts(declaration.results@)
                == ld_red_llvm_results(ld_red, token) && texts(declaration.classes@)
                == ld_red_classes() && texts(declaration.properties@) == ld_red_properties(ld_red)
                && declaration.selections@.len() == 0 && record.lowering@ == "generated_tcgen05"@;
            let behaved = !record.pure && record.memory@ == "read"@ && record.convergent
                && record.execution_scope@ == scope && is_contract_of(
                contract,
                ld_red,
                RuntimeValidation::Unexecuted,
            );
            let expected = record.minimum_ptx@ == "8.8"@ && record.minimum_sm is None
                && record.targets@ == "sm_103a|sm_110a"@ && record.ptx_isa_version@ == "8.8"@
                && record.ptx_result@ == ld_red_rust_result(ld_red) && record.expected_ptx.mnemonic@
                == "tcgen05"@ && texts(record.expected_ptx.modifiers@) == ld_red_modifiers(ld_red)
                && record.expected_ptx.operands@ == ld_red_operands(ld_red);
            let routed = goes_to_both_from_8_8(record);
            let alone = record.cache_policy is None && record.other_contracts@.len() == 0;
            &&& said is None <==> known && named && offered && carried && behaved && expected
                && routed && alone
            &&& !known ==> said == Some(
                record.id@ + " has an unsupported tcgen05 reducing-load identity"@,
            )
            &&& known && !named ==> said == Some(
                record.id@ + " tcgen05 reducing-load identity changed"@,
            )
            &&& known && named && !offered ==> said == Some(
                record.id@ + " tcgen05 reducing-load Rust API changed"@,
            )
            &&& known && named && offered && !carried ==> said == Some(
                record.id@ + " tcgen05 reducing-load carrier or imported declaration changed"@,
            )
            &&& known && named && offered && carried && !behaved ==> said == Some(
                record.id@ + " tcgen05 reducing-load semantics changed"@,
            )
            &&& known && named && offered && carried && behaved && !expected ==> said == Some(
                record.id@ + " tcgen05 reducing-load target or PTX contract changed"@,
            )
            &&& known && named && offered && carried && behaved && expected && !routed ==> said
                == Some(record.id@ + " tcgen05 reducing-load backend route changed"@)
            &&& known && named && offered && carried && behaved && expected && routed && !alone
                ==> said == Some(
                record.id@ + " "@ + "tcgen05 reducing load"@
                    + " record carries another family contract"@,
            )
        }),
{
}

/// A record that is built for an admitted load takes from the base what does not
/// depend on the load: where it comes from, how it is lowered, its effects, its
/// floor of the architecture, its mnemonic and the other contracts.
pub proof fn built_records_keep_the_base(
    record: OverlayIntrinsic,
    base: OverlayIntrinsic,
    admission: Tcgen05Admission,
    variant: Tcgen05LdRedAdmissionVariant,
    token: Seq<char>,
    scope: Seq<char>,
)
    requires
        is_materialized(record, base, admission, variant, token, scope),
    ensures
        record.source == base.source,
        record.rust_module == base.rust_module,
        record.safe == base.safe,
        record.safe_allowlist_reason == base.safe_allowlist_reason,
        record.lowering == base.lowering,
        record.pure == base.pure,
        record.memory == base.memory,
        record.convergent == base.convergent,
        record.minimum_sm == base.minimum_sm,
        record.expected_ptx.mnemonic == base.expected_ptx.mnemonic,
        record.cache_policy == base.cache_policy,
        record.other_contracts@ == base.other_contracts@,
        record.backend_lowerings@.len() == base.backend_lowerings@.len(),
        forall|i: int|
            0 <= i < base.backend_lowerings@.len() ==> (
            #[trigger] record.backend_lowerings@[i]).backend == base.backend_lowerings@[i].backend
                && record.backend_lowerings@[i].mechanism == base.backend_lowerings@[i].mechanism
                && record.backend_lowerings@[i].minimum_sm == base.backend_lowerings@[i].minimum_sm,
        forall|i: int|
            2 <= i < base.backend_lowerings@.len() ==> #[trigger] record.backend_lowerings@[i]
                == base.backend_lowerings@[i],
{
}

/// A record that is built for an admitted load has its other fields from the
/// load, the admission and the arguments, and none of them from the base.
pub proof fn built_records_follow_the_load(
    record: OverlayIntrinsic,
    base: OverlayIntrinsic,
    admission: Tcgen05Admission,
    variant: Tcgen05LdRedAdmissionVariant,
    token: Seq<char>,
    scope: Seq<char>,
)
    requires
        is_materialized(record, base, admission, variant, token, scope),
    ensures
        ({
            let ld_red = Tcgen05LdRed {
                shape: variant.shape,
                multiplicity: variant.multiplicity,
                op: variant.op,
                element: variant.element,
                abs: variant.abs,
                nan: variant.nan,
            };
            let routes = record.backend_lowerings@;
            &&& record.id@ == ld_red_id(ld_red)
            &&& record.abi_id == variant.abi_id
            &&& record.operation_key@ == ld_red_operation_key(ld_red)
            &&& optional_text(record.source_record) == Some(ld_red_source_record(ld_red))
            &&& record.rust_name@ == ld_red_id(ld_red)
            &&& texts(record.rust_arguments@) == ld_red_rust_arguments(ld_red)
            &&& record.rust_result@ == ld_red_rust_result(ld_red)
            &&& record.must_use
            &&& record.public_rust_path@ == ld_red_public_path(ld_red)
            &&& texts(record.compatibility_rust_paths@) == seq![ld_red_compatibility_path(ld_red)]
            &&& record.dialect_op_type@ == ld_red_op_type(ld_red)
            &&& record.dialect_op_name@ == "nvvm."@ + ld_red_id(ld_red)
            &&& texts(record.dialect_operands@) == ld_red_dialect_operands(ld_red)
            &&& texts(record.dialect_results@) == ld_red_dialect_results(ld_red)
            &&& optional_text(record.llvm_symbol) == Some(ld_red_llvm_symbol(ld_red))
            &&& record.resolved_llvm_symbol is None
            &&& texts(record.llvm_arguments@) == ld_red_llvm_arguments(ld_red)
            &&& texts(record.llvm_results@) == ld_red_llvm_results(ld_red, token)
            &&& record.execution_scope@ == scope
            &&& record.minimum_ptx@ == "8.8"@
            &&& record.targets@ == "sm_103a|sm_110a"@
            &&& record.ptx_isa_version@ == "8.8"@
            &&& record.ptx_isa_section@ == "Tensor Memory tcgen05 instructions: tcgen05.ld"@
            &&& record.ptx_isa_url@
                == "https://docs.nvidia.com/cuda/parallel-thread-execution/#tcgen05-instructions-tcgen05-ld"@
            &&& record.ptx_result@ == record.rust_result@
            &&& texts(record.expected_ptx.modifiers@) == ld_red_modifiers(ld_red)
            &&& record.expected_ptx.operands@ == ld_red_operands(ld_red)
            &&& record.summary@ == ld_red_summary(ld_red)
            &&& record.tcgen05 matches Some(contract) && is_contract_of(
                contract,
                ld_red,
                admission.runtime_validation,
            )
            &&& routes.len() > 0 ==> routes[0].evidence_profile@
                == admission.ld_red_llvm_evidence_profile->0@
            &&& routes.len() > 1 ==> routes[1].evidence_profile@
                == admission.ld_red_libnvvm_evidence_profile->0@
            &&& forall|i: int|
                0 <= i < 2 && i < routes.len() ==> optional_text(
                    (#[trigger] routes[i]).minimum_ptx,
                ) == Some("8.8"@) && optional_text(routes[i].targets) == (
                if routes[i].backend == IntrinsicBackend::LibNvvm {
                    Some("sm_103a|sm_110a"@)
                } else {
                    None
                })
        }),
{
}

} // verus!
