//! Records of `tcgen05.ld.red` intrinsics: building them from an admission, and
//! checking them.

use crate::catalog::tcgen05::{
    RuntimeValidation, Tcgen05, Tcgen05Adapter, Tcgen05Admission, Tcgen05LdRed,
    Tcgen05LdRedAdmissionVariant, Tcgen05Operation, Tcgen05SourceContract,
};
use crate::catalog::{
    BackendLowering, BackendLoweringMechanism, ExpectedPtx, ImportedIntrinsic, IntrinsicSource,
    OverlayIntrinsic,
};
use crate::lower::IntrinsicBackend;
use crate::resolve::ld_red::{
    has_result_records, is_half_split, is_supported, ld_red_id, ld_red_llvm_arguments,
    ld_red_llvm_results, ld_red_llvm_symbol, ld_red_modifiers, ld_red_op_type, ld_red_operands,
    ld_red_operation_key, ld_red_properties, ld_red_rust_result, ld_red_source_record,
    ld_red_summary, names_are_distinct, registers, supported_loads_have_records, tcgen05_ld_red_has_half_split_offset, tcgen05_ld_red_id,
    tcgen05_ld_red_imported_properties, tcgen05_ld_red_llvm_arguments, tcgen05_ld_red_llvm_results,
    tcgen05_ld_red_llvm_symbol, tcgen05_ld_red_modifiers, tcgen05_ld_red_op_type,
    tcgen05_ld_red_operands, tcgen05_ld_red_operation_key, tcgen05_ld_red_register_count,
    tcgen05_ld_red_rust_result, tcgen05_ld_red_source_record, tcgen05_ld_red_summary,
    tcgen05_ld_red_variants, TCGEN05_LD_RED_MINIMUM_PTX, TCGEN05_LD_RED_TARGETS,
};
use crate::resolve::{
    carries_other_contract, complain, ensure_no_other_family_contract, other_contract_text,
    refusal, same_patterns, ContractFamily, ResolveError,
};
use crate::text::{
    blank, copy_optional_text, copy_texts, is_blank, is_only_text, is_text, optional_text,
    push_repeated, push_text, push_text_if, repeated, same_text, same_texts, text_if, texts,
};
use vstd::prelude::*;

verus! {

/// The identity that an admission admits.
pub open spec fn admitted(variant: Tcgen05LdRedAdmissionVariant) -> Tcgen05LdRed {
    Tcgen05LdRed {
        shape: variant.shape,
        multiplicity: variant.multiplicity,
        op: variant.op,
        element: variant.element,
        abs: variant.abs,
        nan: variant.nan,
    }
}

/// The arguments in Rust: the address, then the offset of a split shape.
pub open spec fn ld_red_rust_arguments(ld_red: Tcgen05LdRed) -> Seq<Seq<char>> {
    seq!["u32"@] + text_if(is_half_split(ld_red), "i64"@)
}

/// The operands of the dialect operation.
pub open spec fn ld_red_dialect_operands(ld_red: Tcgen05LdRed) -> Seq<Seq<char>> {
    seq!["i32"@] + text_if(is_half_split(ld_red), "i64"@)
}

/// The results of the dialect operation: the registers, then the reduction.
pub open spec fn ld_red_dialect_results(ld_red: Tcgen05LdRed) -> Seq<Seq<char>> {
    repeated(ld_red.element.signless_spelling(), registers(ld_red) + 1)
}

/// The path of the function in `cuda_intrinsics`.
pub open spec fn ld_red_public_path(ld_red: Tcgen05LdRed) -> Seq<char> {
    "cuda_intrinsics::tcgen05::"@ + ld_red_id(ld_red)
}

/// The path of the function in `cuda_device`, where the form of a split shape
/// is internal.
pub open spec fn ld_red_compatibility_path(ld_red: Tcgen05LdRed) -> Seq<char> {
    "cuda_device::tcgen05::"@ + (if is_half_split(ld_red) {
        "__"@ + ld_red_id(ld_red)
    } else {
        ld_red_id(ld_red)
    })
}

/// The adapter of a reducing load.
pub open spec fn ld_red_adapter(ld_red: Tcgen05LdRed) -> Tcgen05Adapter {
    if is_half_split(ld_red) {
        Tcgen05Adapter::TmemHalfSplitOffsetInjectReductionToRegistersAndValue
    } else {
        Tcgen05Adapter::TmemInjectReductionToRegistersAndValue
    }
}

/// Whether a contract is the one of a reducing load.
pub open spec fn is_ld_red_contract(
    tcgen05: Tcgen05,
    ld_red: Tcgen05LdRed,
    runtime_validation: RuntimeValidation,
) -> bool {
    &&& tcgen05.operation == Tcgen05Operation::LdRed
    &&& tcgen05.cp is None
    &&& tcgen05.ld is None
    &&& tcgen05.ld_red == Some(ld_red)
    &&& tcgen05.st is None
    &&& tcgen05.mma is None
    &&& tcgen05.adapter == ld_red_adapter(ld_red)
    &&& tcgen05.source_contract == Tcgen05SourceContract::LlvmCustomLoweringWithoutSelection
    &&& tcgen05.runtime_validation == runtime_validation
}

/// The targets of a route: libNVVM has to be told, LLVM is not.
pub open spec fn route_targets(backend: IntrinsicBackend) -> Option<Seq<char>> {
    if backend == IntrinsicBackend::LibNvvm {
        Some(TCGEN05_LD_RED_TARGETS@)
    } else {
        None
    }
}

/// Whether a route is another one with the evidence and the floors of reducing
/// loads.
pub open spec fn is_evidenced_route(
    route: BackendLowering,
    base: BackendLowering,
    profile: Seq<char>,
) -> bool {
    &&& route.backend == base.backend
    &&& route.mechanism == base.mechanism
    &&& route.minimum_sm == base.minimum_sm
    &&& route.evidence_profile@ == profile
    &&& optional_text(route.minimum_ptx) == Some(TCGEN05_LD_RED_MINIMUM_PTX@)
    &&& optional_text(route.targets) == route_targets(base.backend)
}

/// Whether routes are those of a base record, the first two with the evidence
/// of an admission.
pub open spec fn are_evidenced_routes(
    routes: Seq<BackendLowering>,
    base: Seq<BackendLowering>,
    admission: Tcgen05Admission,
) -> bool {
    &&& routes.len() == base.len()
    &&& base.len() > 0 ==> is_evidenced_route(
        routes[0],
        base[0],
        admission.ld_red_llvm_evidence_profile->0@,
    )
    &&& base.len() > 1 ==> is_evidenced_route(
        routes[1],
        base[1],
        admission.ld_red_libnvvm_evidence_profile->0@,
    )
    &&& forall|i: int| 2 <= i < base.len() ==> #[trigger] routes[i] == base[i]
}

/// Whether an admission has evidence for the routes of a base record.
pub open spec fn has_evidence(admission: Tcgen05Admission, base: OverlayIntrinsic) -> bool {
    &&& base.backend_lowerings@.len() > 0 ==> admission.ld_red_llvm_evidence_profile is Some
    &&& base.backend_lowerings@.len() > 1 ==> admission.ld_red_libnvvm_evidence_profile is Some
}

/// Whether a record is the one of an admitted reducing load over a base record:
/// what depends on the variant is derived from it, and the rest is the base's.
pub open spec fn is_materialized(
    record: OverlayIntrinsic,
    base: OverlayIntrinsic,
    admission: Tcgen05Admission,
    variant: Tcgen05LdRedAdmissionVariant,
    overloaded_data_token: Seq<char>,
    execution_scope: Seq<char>,
) -> bool {
    let ld_red = admitted(variant);
    &&& record.id@ == ld_red_id(ld_red)
    &&& record.abi_id == variant.abi_id
    &&& record.operation_key@ == ld_red_operation_key(ld_red)
    &&& record.source == base.source
    &&& optional_text(record.source_record) == Some(ld_red_source_record(ld_red))
    &&& record.rust_module == base.rust_module
    &&& record.rust_name@ == ld_red_id(ld_red)
    &&& texts(record.rust_arguments@) == ld_red_rust_arguments(ld_red)
    &&& record.rust_result@ == ld_red_rust_result(ld_red)
    &&& record.safe == base.safe
    &&& record.must_use
    &&& record.safe_allowlist_reason == base.safe_allowlist_reason
    &&& record.public_rust_path@ == ld_red_public_path(ld_red)
    &&& texts(record.compatibility_rust_paths@) == seq![ld_red_compatibility_path(ld_red)]
    &&& record.dialect_op_type@ == ld_red_op_type(ld_red)
    &&& record.dialect_op_name@ == "nvvm."@ + ld_red_id(ld_red)
    &&& texts(record.dialect_operands@) == ld_red_dialect_operands(ld_red)
    &&& texts(record.dialect_results@) == ld_red_dialect_results(ld_red)
    &&& optional_text(record.llvm_symbol) == Some(ld_red_llvm_symbol(ld_red))
    &&& record.resolved_llvm_symbol is None
    &&& texts(record.llvm_arguments@) == ld_red_llvm_arguments(ld_red)
    &&& texts(record.llvm_results@) == ld_red_llvm_results(ld_red, overloaded_data_token)
    &&& record.lowering == base.lowering
    &&& record.pure == base.pure
    &&& record.memory == base.memory
    &&& record.convergent == base.convergent
    &&& record.execution_scope@ == execution_scope
    &&& record.minimum_ptx@ == TCGEN05_LD_RED_MINIMUM_PTX@
    &&& record.minimum_sm == base.minimum_sm
    &&& record.targets@ == TCGEN05_LD_RED_TARGETS@
    &&& record.ptx_isa_version@ == TCGEN05_LD_RED_MINIMUM_PTX@
    &&& record.ptx_isa_section@ == TCGEN05_LD_ISA_SECTION@
    &&& record.ptx_isa_url@ == TCGEN05_LD_ISA_URL@
    &&& record.ptx_result@ == ld_red_rust_result(ld_red)
    &&& record.expected_ptx.mnemonic == base.expected_ptx.mnemonic
    &&& texts(record.expected_ptx.modifiers@) == ld_red_modifiers(ld_red)
    &&& record.expected_ptx.operands@ == ld_red_operands(ld_red)
    &&& are_evidenced_routes(record.backend_lowerings@, base.backend_lowerings@, admission)
    &&& record.summary@ == ld_red_summary(ld_red)
    &&& record.cache_policy == base.cache_policy
    &&& record.tcgen05 is Some
    &&& is_ld_red_contract(record.tcgen05->0, ld_red, admission.runtime_validation)
    &&& record.other_contracts@ == base.other_contracts@
}

/// Where the PTX manual documents the instruction.
pub const TCGEN05_LD_ISA_SECTION: &'static str = "Tensor Memory tcgen05 instructions: tcgen05.ld";

/// Where the PTX manual documents the instruction.
pub const TCGEN05_LD_ISA_URL: &'static str =
    "https://docs.nvidia.com/cuda/parallel-thread-execution/#tcgen05-instructions-tcgen05-ld";

fn copy_source(source: &Option<IntrinsicSource>) -> (r: Option<IntrinsicSource>)
    ensures
        r == *source,
{
    match source {
        Some(IntrinsicSource::PtxNative { instruction }) => {
            Some(IntrinsicSource::PtxNative { instruction: instruction.clone() })
        },
        Some(IntrinsicSource::LlvmDeclaration { source_record }) => {
            Some(IntrinsicSource::LlvmDeclaration { source_record: source_record.clone() })
        },
        None => None,
    }
}

fn copy_route(route: &BackendLowering) -> (r: BackendLowering)
    ensures
        r == *route,
{
    BackendLowering {
        backend: route.backend,
        mechanism: route.mechanism,
        targets: copy_optional_text(&route.targets),
        minimum_ptx: copy_optional_text(&route.minimum_ptx),
        minimum_sm: copy_optional_text(&route.minimum_sm),
        evidence_profile: route.evidence_profile.clone(),
    }
}

fn evidenced_route(base: &BackendLowering, profile: &Option<String>) -> (r: BackendLowering)
    requires
        profile is Some,
    ensures
        is_evidenced_route(r, *base, profile->0@),
{
    let evidence_profile = match profile {
        Some(text) => text.clone(),
        None => String::new(),
    };
    BackendLowering {
        backend: base.backend,
        mechanism: base.mechanism,
        targets: if base.backend == IntrinsicBackend::LibNvvm {
            Some(TCGEN05_LD_RED_TARGETS.to_owned())
        } else {
            None
        },
        minimum_ptx: Some(TCGEN05_LD_RED_MINIMUM_PTX.to_owned()),
        minimum_sm: copy_optional_text(&base.minimum_sm),
        evidence_profile,
    }
}

fn evidenced_routes(base: &Vec<BackendLowering>, admission: &Tcgen05Admission) -> (r: Vec<
    BackendLowering,
>)
    requires
        base@.len() > 0 ==> admission.ld_red_llvm_evidence_profile is Some,
        base@.len() > 1 ==> admission.ld_red_libnvvm_evidence_profile is Some,
    ensures
        are_evidenced_routes(r@, base@, *admission),
{
    let mut routes: Vec<BackendLowering> = Vec::new();
    for i in 0..base.len()
        invariant
            base@.len() > 0 ==> admission.ld_red_llvm_evidence_profile is Some,
            base@.len() > 1 ==> admission.ld_red_libnvvm_evidence_profile is Some,
            routes@.len() == i,
            i > 0 ==> is_evidenced_route(
                routes@[0],
                base@[0],
                admission.ld_red_llvm_evidence_profile->0@,
            ),
            i > 1 ==> is_evidenced_route(
                routes@[1],
                base@[1],
                admission.ld_red_libnvvm_evidence_profile->0@,
            ),
            forall|j: int| 2 <= j < i ==> #[trigger] routes@[j] == base@[j],
    {
        let route = if i == 0 {
            evidenced_route(&base[i], &admission.ld_red_llvm_evidence_profile)
        } else if i == 1 {
            evidenced_route(&base[i], &admission.ld_red_libnvvm_evidence_profile)
        } else {
            copy_route(&base[i])
        };
        routes.push(route);
    }
    routes
}

fn rust_arguments(ld_red: Tcgen05LdRed) -> (r: Vec<String>)
    ensures
        texts(r@) == ld_red_rust_arguments(ld_red),
{
    let mut arguments: Vec<String> = Vec::new();
    push_text(&mut arguments, "u32");
    push_text_if(&mut arguments, tcgen05_ld_red_has_half_split_offset(ld_red), "i64");
    assert(texts(arguments@) =~= ld_red_rust_arguments(ld_red));
    arguments
}

fn dialect_operands(ld_red: Tcgen05LdRed) -> (r: Vec<String>)
    ensures
        texts(r@) == ld_red_dialect_operands(ld_red),
{
    let mut operands: Vec<String> = Vec::new();
    push_text(&mut operands, "i32");
    push_text_if(&mut operands, tcgen05_ld_red_has_half_split_offset(ld_red), "i64");
    assert(texts(operands@) =~= ld_red_dialect_operands(ld_red));
    operands
}

fn dialect_results(ld_red: Tcgen05LdRed) -> (r: Vec<String>)
    ensures
        texts(r@) == ld_red_dialect_results(ld_red),
{
    let mut results: Vec<String> = Vec::new();
    push_repeated(
        &mut results,
        ld_red.element.dialect_type(),
        tcgen05_ld_red_register_count(ld_red) + 1,
    );
    assert(texts(results@) =~= ld_red_dialect_results(ld_red));
    results
}

fn compatibility_path(ld_red: Tcgen05LdRed) -> (r: String)
    ensures
        r@ == ld_red_compatibility_path(ld_red),
{
    let id = tcgen05_ld_red_id(ld_red);
    let name = if tcgen05_ld_red_has_half_split_offset(ld_red) {
        "__".to_owned().concat(id.as_str())
    } else {
        id
    };
    "cuda_device::tcgen05::".to_owned().concat(name.as_str())
}

fn adapter(ld_red: Tcgen05LdRed) -> (r: Tcgen05Adapter)
    ensures
        r == ld_red_adapter(ld_red),
{
    if tcgen05_ld_red_has_half_split_offset(ld_red) {
        Tcgen05Adapter::TmemHalfSplitOffsetInjectReductionToRegistersAndValue
    } else {
        Tcgen05Adapter::TmemInjectReductionToRegistersAndValue
    }
}

/// Builds the record of an admitted reducing load over a base record.
pub fn materialize_tcgen05_ld_red_variant(
    base: &OverlayIntrinsic,
    admission: &Tcgen05Admission,
    variant: &Tcgen05LdRedAdmissionVariant,
    overloaded_data_token: &str,
    execution_scope: &str,
) -> (record: OverlayIntrinsic)
    requires
        has_result_records(admitted(*variant)),
        has_evidence(*admission, *base),
    ensures
        is_materialized(
            record,
            *base,
            *admission,
            *variant,
            overloaded_data_token@,
            execution_scope@,
        ),
{
    let ld_red = Tcgen05LdRed {
        shape: variant.shape,
        multiplicity: variant.multiplicity,
        op: variant.op,
        element: variant.element,
        abs: variant.abs,
        nan: variant.nan,
    };
    let id = tcgen05_ld_red_id(ld_red);
    let rust_result = tcgen05_ld_red_rust_result(ld_red);
    let mut compatibility_rust_paths: Vec<String> = Vec::new();
    push_text(&mut compatibility_rust_paths, compatibility_path(ld_red).as_str());
    assert(texts(compatibility_rust_paths@) =~= seq![ld_red_compatibility_path(ld_red)]);
    let tcgen05 = Tcgen05 {
        operation: Tcgen05Operation::LdRed,
        cp: None,
        ld: None,
        ld_red: Some(ld_red),
        st: None,
        mma: None,
        adapter: adapter(ld_red),
        source_contract: Tcgen05SourceContract::LlvmCustomLoweringWithoutSelection,
        runtime_validation: admission.runtime_validation,
    };
    OverlayIntrinsic {
        id: id.clone(),
        abi_id: variant.abi_id.clone(),
        operation_key: tcgen05_ld_red_operation_key(ld_red),
        source: copy_source(&base.source),
        source_record: Some(tcgen05_ld_red_source_record(ld_red)),
        rust_module: base.rust_module.clone(),
        rust_name: id.clone(),
        rust_arguments: rust_arguments(ld_red),
        rust_result: rust_result.clone(),
        safe: base.safe,
        must_use: true,
        safe_allowlist_reason: copy_optional_text(&base.safe_allowlist_reason),
        public_rust_path: "cuda_intrinsics::tcgen05::".to_owned().concat(id.as_str()),
        compatibility_rust_paths,
        dialect_op_type: tcgen05_ld_red_op_type(ld_red),
        dialect_op_name: "nvvm.".to_owned().concat(id.as_str()),
        dialect_operands: dialect_operands(ld_red),
        dialect_results: dialect_results(ld_red),
        llvm_symbol: Some(tcgen05_ld_red_llvm_symbol(ld_red)),
        resolved_llvm_symbol: None,
        llvm_arguments: tcgen05_ld_red_llvm_arguments(ld_red),
        llvm_results: tcgen05_ld_red_llvm_results(ld_red, overloaded_data_token),
        lowering: base.lowering.clone(),
        pure: base.pure,
        memory: base.memory.clone(),
        convergent: base.convergent,
        execution_scope: execution_scope.to_owned(),
        minimum_ptx: TCGEN05_LD_RED_MINIMUM_PTX.to_owned(),
        minimum_sm: copy_optional_text(&base.minimum_sm),
        targets: TCGEN05_LD_RED_TARGETS.to_owned(),
        ptx_isa_version: TCGEN05_LD_RED_MINIMUM_PTX.to_owned(),
        ptx_isa_section: TCGEN05_LD_ISA_SECTION.to_owned(),
        ptx_isa_url: TCGEN05_LD_ISA_URL.to_owned(),
        ptx_result: rust_result,
        expected_ptx: ExpectedPtx {
            mnemonic: base.expected_ptx.mnemonic.clone(),
            modifiers: tcgen05_ld_red_modifiers(ld_red),
            operands: tcgen05_ld_red_operands(ld_red),
        },
        backend_lowerings: evidenced_routes(&base.backend_lowerings, admission),
        summary: tcgen05_ld_red_summary(ld_red),
        cache_policy: base.cache_policy,
        tcgen05: Some(tcgen05),
        other_contracts: copy_texts(&base.other_contracts),
    }
}

/// Whether the identity of a record and its declaration is the one of a load.
pub open spec fn has_ld_red_identity(
    policy: OverlayIntrinsic,
    declaration: ImportedIntrinsic,
    ld_red: Tcgen05LdRed,
) -> bool {
    &&& policy.id@ == ld_red_id(ld_red)
    &&& policy.operation_key@ == ld_red_operation_key(ld_red)
    &&& policy.source is None
    &&& optional_text(policy.source_record) == Some(ld_red_source_record(ld_red))
    &&& optional_text(policy.llvm_symbol) == Some(ld_red_llvm_symbol(ld_red))
    &&& policy.resolved_llvm_symbol is None
    &&& declaration.source_record@ == ld_red_source_record(ld_red)
    &&& declaration.llvm_name@ == ld_red_llvm_symbol(ld_red)
}

/// Whether the Rust interface of a record is the one of a load.
pub open spec fn has_ld_red_api(policy: OverlayIntrinsic, ld_red: Tcgen05LdRed) -> bool {
    &&& policy.rust_module@ == "tcgen05"@
    &&& policy.rust_name@ == ld_red_id(ld_red)
    &&& texts(policy.rust_arguments@) == ld_red_rust_arguments(ld_red)
    &&& policy.rust_result@ == ld_red_rust_result(ld_red)
    &&& !policy.safe
    &&& policy.must_use
    &&& policy.safe_allowlist_reason is None
    &&& policy.public_rust_path@ == ld_red_public_path(ld_red)
    &&& texts(policy.compatibility_rust_paths@) == seq![ld_red_compatibility_path(ld_red)]
}

/// The TableGen classes of the imported declarations.
pub open spec fn ld_red_classes() -> Seq<Seq<char>> {
    seq![
        "SDPatternOperator"@,
        "Intrinsic"@,
        "DefaultAttrsIntrinsic"@,
        "DefaultAttrsIntrinsicFlags"@,
        "NVVM_TCGEN05_LD_RED"@,
    ]
}

/// Whether the carrier of a record and its declaration are the ones of a load.
pub open spec fn has_ld_red_carrier(
    policy: OverlayIntrinsic,
    declaration: ImportedIntrinsic,
    ld_red: Tcgen05LdRed,
    overloaded_data_token: Seq<char>,
) -> bool {
    &&& policy.dialect_op_type@ == ld_red_op_type(ld_red)
    &&& policy.dialect_op_name@ == "nvvm."@ + ld_red_id(ld_red)
    &&& texts(policy.dialect_operands@) == ld_red_dialect_operands(ld_red)
    &&& texts(policy.dialect_results@) == ld_red_dialect_results(ld_red)
    &&& texts(policy.llvm_arguments@) == ld_red_llvm_arguments(ld_red)
    &&& texts(policy.llvm_results@) == ld_red_llvm_results(ld_red, overloaded_data_token)
    &&& texts(declaration.arguments@) == ld_red_llvm_arguments(ld_red)
    &&& texts(declaration.results@) == ld_red_llvm_results(ld_red, overloaded_data_token)
    &&& texts(declaration.classes@) == ld_red_classes()
    &&& texts(declaration.properties@) == ld_red_properties(ld_red)
    &&& declaration.selections@.len() == 0
    &&& policy.lowering@ == "generated_tcgen05"@
}

/// Whether the effects of a record and its contract are the ones of a load
/// that has not been executed.
pub open spec fn has_ld_red_semantics(
    policy: OverlayIntrinsic,
    tcgen05: Tcgen05,
    ld_red: Tcgen05LdRed,
    execution_scope: Seq<char>,
) -> bool {
    &&& !policy.pure
    &&& policy.memory@ == "read"@
    &&& policy.convergent
    &&& policy.execution_scope@ == execution_scope
    &&& is_ld_red_contract(tcgen05, ld_red, RuntimeValidation::Unexecuted)
}

/// Whether the targets and the PTX instruction of a record are the ones of a
/// load.
pub open spec fn has_ld_red_ptx(policy: OverlayIntrinsic, ld_red: Tcgen05LdRed) -> bool {
    &&& policy.minimum_ptx@ == TCGEN05_LD_RED_MINIMUM_PTX@
    &&& policy.minimum_sm is None
    &&& policy.targets@ == TCGEN05_LD_RED_TARGETS@
    &&& policy.ptx_isa_version@ == TCGEN05_LD_RED_MINIMUM_PTX@
    &&& policy.ptx_result@ == ld_red_rust_result(ld_red)
    &&& policy.expected_ptx.mnemonic@ == "tcgen05"@
    &&& texts(policy.expected_ptx.modifiers@) == ld_red_modifiers(ld_red)
    &&& policy.expected_ptx.operands@ == ld_red_operands(ld_red)
}

/// Whether a route is inline PTX with the floors of reducing loads and some
/// evidence.
pub open spec fn is_ld_red_route(route: BackendLowering) -> bool {
    &&& optional_text(route.targets) == route_targets(route.backend)
    &&& route.mechanism == BackendLoweringMechanism::InlinePtx
    &&& optional_text(route.minimum_ptx) == Some(TCGEN05_LD_RED_MINIMUM_PTX@)
    &&& route.minimum_sm is None
    &&& !is_blank(route.evidence_profile@)
}

/// Whether a record goes to both backends, in order.
pub open spec fn has_ld_red_routes(policy: OverlayIntrinsic) -> bool {
    &&& policy.backend_lowerings@.len() == 2
    &&& policy.backend_lowerings@[0].backend == IntrinsicBackend::LlvmNvptx
    &&& policy.backend_lowerings@[1].backend == IntrinsicBackend::LibNvvm
    &&& is_ld_red_route(policy.backend_lowerings@[0])
    &&& is_ld_red_route(policy.backend_lowerings@[1])
}

/// Why a record of a reducing load is refused, if it is: the first rule that it
/// breaks.
pub open spec fn ld_red_refusal(
    policy: OverlayIntrinsic,
    declaration: ImportedIntrinsic,
    tcgen05: Tcgen05,
    ld_red: Tcgen05LdRed,
    overloaded_data_token: Seq<char>,
    execution_scope: Seq<char>,
) -> Option<Seq<char>> {
    if !is_supported(ld_red) {
        Some(policy.id@ + " has an unsupported tcgen05 reducing-load identity"@)
    } else if !has_ld_red_identity(policy, declaration, ld_red) {
        Some(policy.id@ + " tcgen05 reducing-load identity changed"@)
    } else if !has_ld_red_api(policy, ld_red) {
        Some(policy.id@ + " tcgen05 reducing-load Rust API changed"@)
    } else if !has_ld_red_carrier(policy, declaration, ld_red, overloaded_data_token) {
        Some(policy.id@ + " tcgen05 reducing-load carrier or imported declaration changed"@)
    } else if !has_ld_red_semantics(policy, tcgen05, ld_red, execution_scope) {
        Some(policy.id@ + " tcgen05 reducing-load semantics changed"@)
    } else if !has_ld_red_ptx(policy, ld_red) {
        Some(policy.id@ + " tcgen05 reducing-load target or PTX contract changed"@)
    } else if !has_ld_red_routes(policy) {
        Some(policy.id@ + " tcgen05 reducing-load backend route changed"@)
    } else if carries_other_contract(policy, ContractFamily::Tcgen05) {
        Some(other_contract_text(policy.id@, "tcgen05 reducing load"@))
    } else {
        None
    }
}

fn declaration_classes() -> (r: Vec<String>)
    ensures
        texts(r@) == ld_red_classes(),
{
    let mut classes: Vec<String> = Vec::new();
    push_text(&mut classes, "SDPatternOperator");
    push_text(&mut classes, "Intrinsic");
    push_text(&mut classes, "DefaultAttrsIntrinsic");
    push_text(&mut classes, "DefaultAttrsIntrinsicFlags");
    push_text(&mut classes, "NVVM_TCGEN05_LD_RED");
    assert(texts(classes@) =~= ld_red_classes());
    classes
}

fn contains_variant(variants: &Vec<Tcgen05LdRed>, ld_red: Tcgen05LdRed) -> (r: bool)
    ensures
        r == variants@.contains(ld_red),
{
    for i in 0..variants.len()
        invariant
            forall|j: int| 0 <= j < i ==> variants@[j] != ld_red,
    {
        if variants[i] == ld_red {
            return true;
        }
    }
    false
}

fn ld_red_route(route: &BackendLowering) -> (r: bool)
    ensures
        r == is_ld_red_route(*route),
{
    let targeted = if route.backend == IntrinsicBackend::LibNvvm {
        is_text(&route.targets, TCGEN05_LD_RED_TARGETS)
    } else {
        route.targets.is_none()
    };
    targeted && route.mechanism == BackendLoweringMechanism::InlinePtx && is_text(
        &route.minimum_ptx,
        TCGEN05_LD_RED_MINIMUM_PTX,
    ) && route.minimum_sm.is_none() && !blank(route.evidence_profile.as_str())
}

fn is_identity_kept(
    policy: &OverlayIntrinsic,
    declaration: &ImportedIntrinsic,
    ld_red: Tcgen05LdRed,
) -> (r: bool)
    ensures
        r == has_ld_red_identity(*policy, *declaration, ld_red),
{
    let source_record = tcgen05_ld_red_source_record(ld_red);
    let llvm_symbol = tcgen05_ld_red_llvm_symbol(ld_red);
    policy.id == tcgen05_ld_red_id(ld_red) && policy.operation_key == tcgen05_ld_red_operation_key(
        ld_red,
    ) && policy.source.is_none() && is_text(&policy.source_record, source_record.as_str())
        && is_text(&policy.llvm_symbol, llvm_symbol.as_str())
        && policy.resolved_llvm_symbol.is_none() && declaration.source_record == source_record
        && declaration.llvm_name == llvm_symbol
}

fn is_api_kept(policy: &OverlayIntrinsic, ld_red: Tcgen05LdRed) -> (r: bool)
    ensures
        r == has_ld_red_api(*policy, ld_red),
{
    let id = tcgen05_ld_red_id(ld_red);
    let public_path = "cuda_intrinsics::tcgen05::".to_owned().concat(id.as_str());
    same_text(policy.rust_module.as_str(), "tcgen05") && policy.rust_name == id && same_texts(
        &policy.rust_arguments,
        &rust_arguments(ld_red),
    ) && policy.rust_result == tcgen05_ld_red_rust_result(ld_red) && !policy.safe && policy.must_use
        && policy.safe_allowlist_reason.is_none() && policy.public_rust_path == public_path
        && is_only_text(&policy.compatibility_rust_paths, compatibility_path(ld_red).as_str())
}

fn is_carrier_kept(
    policy: &OverlayIntrinsic,
    declaration: &ImportedIntrinsic,
    ld_red: Tcgen05LdRed,
    overloaded_data_token: &str,
) -> (r: bool)
    requires
        has_result_records(ld_red),
    ensures
        r == has_ld_red_carrier(*policy, *declaration, ld_red, overloaded_data_token@),
{
    let op_name = "nvvm.".to_owned().concat(tcgen05_ld_red_id(ld_red).as_str());
    let llvm_arguments = tcgen05_ld_red_llvm_arguments(ld_red);
    let llvm_results = tcgen05_ld_red_llvm_results(ld_red, overloaded_data_token);
    policy.dialect_op_type == tcgen05_ld_red_op_type(ld_red) && policy.dialect_op_name == op_name
        && same_texts(&policy.dialect_operands, &dialect_operands(ld_red)) && same_texts(
        &policy.dialect_results,
        &dialect_results(ld_red),
    ) && same_texts(&policy.llvm_arguments, &llvm_arguments) && same_texts(
        &policy.llvm_results,
        &llvm_results,
    ) && same_texts(&declaration.arguments, &llvm_arguments) && same_texts(
        &declaration.results,
        &llvm_results,
    ) && same_texts(&declaration.classes, &declaration_classes()) && same_texts(
        &declaration.properties,
        &tcgen05_ld_red_imported_properties(ld_red),
    ) && declaration.selections.len() == 0 && same_text(
        policy.lowering.as_str(),
        "generated_tcgen05",
    )
}

fn are_semantics_kept(
    policy: &OverlayIntrinsic,
    tcgen05: &Tcgen05,
    ld_red: Tcgen05LdRed,
    execution_scope: &str,
) -> (r: bool)
    ensures
        r == has_ld_red_semantics(*policy, *tcgen05, ld_red, execution_scope@),
{
    let same_load = match tcgen05.ld_red {
        Some(load) => load == ld_red,
        None => false,
    };
    !policy.pure && same_text(policy.memory.as_str(), "read") && policy.convergent && same_text(
        policy.execution_scope.as_str(),
        execution_scope,
    ) && tcgen05.operation == Tcgen05Operation::LdRed && tcgen05.cp.is_none()
        && tcgen05.ld.is_none() && same_load && tcgen05.st.is_none() && tcgen05.mma.is_none()
        && tcgen05.adapter == adapter(ld_red) && tcgen05.source_contract
        == Tcgen05SourceContract::LlvmCustomLoweringWithoutSelection && tcgen05.runtime_validation
        == RuntimeValidation::Unexecuted
}

fn is_ptx_kept(policy: &OverlayIntrinsic, ld_red: Tcgen05LdRed) -> (r: bool)
    ensures
        r == has_ld_red_ptx(*policy, ld_red),
{
    same_text(policy.minimum_ptx.as_str(), TCGEN05_LD_RED_MINIMUM_PTX)
        && policy.minimum_sm.is_none() && same_text(
        policy.targets.as_str(),
        TCGEN05_LD_RED_TARGETS,
    ) && same_text(policy.ptx_isa_version.as_str(), TCGEN05_LD_RED_MINIMUM_PTX)
        && policy.ptx_result == tcgen05_ld_red_rust_result(ld_red) && same_text(
        policy.expected_ptx.mnemonic.as_str(),
        "tcgen05",
    ) && same_texts(&policy.expected_ptx.modifiers, &tcgen05_ld_red_modifiers(ld_red))
        && same_patterns(&policy.expected_ptx.operands, &tcgen05_ld_red_operands(ld_red))
}

/// Checks the record of a reducing load against its declaration and contract.
pub fn validate_tcgen05_ld_red_policy(
    policy: &OverlayIntrinsic,
    declaration: &ImportedIntrinsic,
    tcgen05: &Tcgen05,
    ld_red: Tcgen05LdRed,
    overloaded_data_token: &str,
    execution_scope: &str,
) -> (r: Result<(), ResolveError>)
    ensures
        refusal(r) == ld_red_refusal(
            *policy,
            *declaration,
            *tcgen05,
            ld_red,
            overloaded_data_token@,
            execution_scope@,
        ),
{
    if !contains_variant(&tcgen05_ld_red_variants(), ld_red) {
        return Err(complain(policy, " has an unsupported tcgen05 reducing-load identity"));
    }
    proof {
        supported_loads_have_records(ld_red);
    }
    if !is_identity_kept(policy, declaration, ld_red) {
        return Err(complain(policy, " tcgen05 reducing-load identity changed"));
    }
    if !is_api_kept(policy, ld_red) {
        return Err(complain(policy, " tcgen05 reducing-load Rust API changed"));
    }
    if !is_carrier_kept(policy, declaration, ld_red, overloaded_data_token) {
        return Err(
            complain(policy, " tcgen05 reducing-load carrier or imported declaration changed"),
        );
    }
    if !are_semantics_kept(policy, tcgen05, ld_red, execution_scope) {
        return Err(complain(policy, " tcgen05 reducing-load semantics changed"));
    }
    if !is_ptx_kept(policy, ld_red) {
        return Err(complain(policy, " tcgen05 reducing-load target or PTX contract changed"));
    }
    if !(policy.backend_lowerings.len() == 2 && policy.backend_lowerings[0].backend
        == IntrinsicBackend::LlvmNvptx && policy.backend_lowerings[1].backend
        == IntrinsicBackend::LibNvvm && ld_red_route(&policy.backend_lowerings[0]) && ld_red_route(
        &policy.backend_lowerings[1],
    )) {
        return Err(complain(policy, " tcgen05 reducing-load backend route changed"));
    }
    ensure_no_other_family_contract(policy, ContractFamily::Tcgen05, "tcgen05 reducing load")
}

/// Whether a declaration is the imported one behind a load.
pub open spec fn is_ld_red_declaration(
    declaration: ImportedIntrinsic,
    ld_red: Tcgen05LdRed,
    overloaded_data_token: Seq<char>,
) -> bool {
    &&& declaration.source_record@ == ld_red_source_record(ld_red)
    &&& declaration.llvm_name@ == ld_red_llvm_symbol(ld_red)
    &&& texts(declaration.arguments@) == ld_red_llvm_arguments(ld_red)
    &&& texts(declaration.results@) == ld_red_llvm_results(ld_red, overloaded_data_token)
    &&& texts(declaration.classes@) == ld_red_classes()
    &&& texts(declaration.properties@) == ld_red_properties(ld_red)
    &&& declaration.selections@.len() == 0
}

/// Whether a record is one over which reducing loads can be built: an unsafe,
/// convergent read of tensor memory that goes to both backends as inline PTX.
pub open spec fn is_ld_red_base(base: OverlayIntrinsic) -> bool {
    &&& base.source is None
    &&& base.rust_module@ == "tcgen05"@
    &&& !base.safe
    &&& base.safe_allowlist_reason is None
    &&& base.lowering@ == "generated_tcgen05"@
    &&& !base.pure
    &&& base.memory@ == "read"@
    &&& base.convergent
    &&& base.minimum_sm is None
    &&& base.expected_ptx.mnemonic@ == "tcgen05"@
    &&& base.backend_lowerings@.len() == 2
    &&& base.backend_lowerings@[0].backend == IntrinsicBackend::LlvmNvptx
    &&& base.backend_lowerings@[1].backend == IntrinsicBackend::LibNvvm
    &&& forall|i: int|
        0 <= i < 2 ==> (#[trigger] base.backend_lowerings@[i]).mechanism
            == BackendLoweringMechanism::InlinePtx && base.backend_lowerings@[i].minimum_sm is None
    &&& base.cache_policy is None
    &&& base.other_contracts@.len() == 0
}

/// Whether an admission has evidence for both backends and claims no
/// execution.
pub open spec fn is_ld_red_admission(admission: Tcgen05Admission) -> bool {
    &&& !is_blank(admission.ld_red_llvm_evidence_profile->0@)
    &&& !is_blank(admission.ld_red_libnvvm_evidence_profile->0@)
    &&& admission.runtime_validation == RuntimeValidation::Unexecuted
}

/// A materialized record passes its own check exactly if the variant is
/// supported and the base record, the admission and the declaration are those
/// of reducing loads.
pub proof fn materialized_records_are_valid(
    record: OverlayIntrinsic,
    base: OverlayIntrinsic,
    admission: Tcgen05Admission,
    variant: Tcgen05LdRedAdmissionVariant,
    declaration: ImportedIntrinsic,
    overloaded_data_token: Seq<char>,
    execution_scope: Seq<char>,
)
    requires
        is_materialized(
            record,
            base,
            admission,
            variant,
            overloaded_data_token,
            execution_scope,
        ),
    ensures
        ld_red_refusal(
            record,
            declaration,
            record.tcgen05->0,
            admitted(variant),
            overloaded_data_token,
            execution_scope,
        ) is None <==> is_supported(admitted(variant)) && is_ld_red_base(base)
            && is_ld_red_admission(admission) && is_ld_red_declaration(
            declaration,
            admitted(variant),
            overloaded_data_token,
        ),
{
    if base.backend_lowerings@.len() == 2 {
        assert(is_evidenced_route(
            record.backend_lowerings@[0],
            base.backend_lowerings@[0],
            admission.ld_red_llvm_evidence_profile->0@,
        ));
        assert(is_evidenced_route(
            record.backend_lowerings@[1],
            base.backend_lowerings@[1],
            admission.ld_red_libnvvm_evidence_profile->0@,
        ));
    }
}

/// Valid records with one identifier are records of one load.
pub proof fn valid_identifiers_name_one_load(
    a: OverlayIntrinsic,
    a_declaration: ImportedIntrinsic,
    a_load: Tcgen05LdRed,
    b: OverlayIntrinsic,
    b_declaration: ImportedIntrinsic,
    b_load: Tcgen05LdRed,
    overloaded_data_token: Seq<char>,
    execution_scope: Seq<char>,
)
    requires
        a.tcgen05 is Some,
        b.tcgen05 is Some,
        ld_red_refusal(
            a,
            a_declaration,
            a.tcgen05->0,
            a_load,
            overloaded_data_token,
            execution_scope,
        ) is None,
        ld_red_refusal(
            b,
            b_declaration,
            b.tcgen05->0,
            b_load,
            overloaded_data_token,
            execution_scope,
        ) is None,
        a.id@ == b.id@,
    ensures
        a_load == b_load,
{
    if a_load != b_load {
        names_are_distinct(a_load, b_load);
    }
}

} // verus!
