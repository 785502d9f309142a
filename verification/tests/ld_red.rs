//! Reducing tensor-memory loads: identities, names and records.

use cuda_oxide::catalog::tcgen05::{
    tcgen05_ld_multiplicity_name, tcgen05_ld_shape_name, RuntimeValidation, Tcgen05Adapter,
    Tcgen05Admission, Tcgen05LdMultiplicity, Tcgen05LdRed, Tcgen05LdRedAdmissionVariant,
    Tcgen05LdRedElement, Tcgen05LdRedOp, Tcgen05LdShape, Tcgen05Operation,
};
use cuda_oxide::catalog::{
    BackendLowering, BackendLoweringMechanism, ExpectedPtx, ImportedIntrinsic, OperandPattern,
    OverlayIntrinsic,
};
use cuda_oxide::lower::IntrinsicBackend;
use cuda_oxide::resolve::ld_red::{
    tcgen05_ld_red_flag_suffix, tcgen05_ld_red_has_half_split_offset, tcgen05_ld_red_id,
    tcgen05_ld_red_imported_properties, tcgen05_ld_red_llvm_arguments, tcgen05_ld_red_llvm_results,
    tcgen05_ld_red_llvm_symbol, tcgen05_ld_red_modifiers, tcgen05_ld_red_op_type,
    tcgen05_ld_red_operands, tcgen05_ld_red_operation_key, tcgen05_ld_red_register_count,
    tcgen05_ld_red_rust_result, tcgen05_ld_red_source_record, tcgen05_ld_red_summary,
    tcgen05_ld_red_variants,
};
use cuda_oxide::resolve::ld_red_record::{
    materialize_tcgen05_ld_red_variant, validate_tcgen05_ld_red_policy,
};

const TOKEN: &str = "overloaded_vector";
const SCOPE: &str = "warp";

/// The most qualified of the loads.
fn qualified() -> Tcgen05LdRed {
    Tcgen05LdRed {
        shape: Tcgen05LdShape::M16x32bx2,
        multiplicity: Tcgen05LdMultiplicity::X64,
        op: Tcgen05LdRedOp::Max,
        element: Tcgen05LdRedElement::F32,
        abs: true,
        nan: true,
    }
}

/// The least qualified of the loads.
fn plain() -> Tcgen05LdRed {
    Tcgen05LdRed {
        shape: Tcgen05LdShape::M32x32b,
        multiplicity: Tcgen05LdMultiplicity::X2,
        op: Tcgen05LdRedOp::Min,
        element: Tcgen05LdRedElement::S32,
        abs: false,
        nan: false,
    }
}

fn admission() -> Tcgen05Admission {
    Tcgen05Admission {
        ld_red_llvm_evidence_profile: Some("llvm evidence".to_string()),
        ld_red_libnvvm_evidence_profile: Some("libnvvm evidence".to_string()),
        runtime_validation: RuntimeValidation::Unexecuted,
    }
}

fn variant(ld_red: Tcgen05LdRed) -> Tcgen05LdRedAdmissionVariant {
    Tcgen05LdRedAdmissionVariant {
        abi_id: "i2000".to_string(),
        shape: ld_red.shape,
        multiplicity: ld_red.multiplicity,
        op: ld_red.op,
        element: ld_red.element,
        abs: ld_red.abs,
        nan: ld_red.nan,
    }
}

fn route(backend: IntrinsicBackend) -> BackendLowering {
    BackendLowering {
        backend,
        mechanism: BackendLoweringMechanism::InlinePtx,
        targets: Some("all".to_string()),
        minimum_ptx: None,
        minimum_sm: None,
        evidence_profile: String::new(),
    }
}

fn base() -> OverlayIntrinsic {
    OverlayIntrinsic {
        id: "tcgen05_ld".to_string(),
        abi_id: "i1".to_string(),
        operation_key: "tcgen05.ld".to_string(),
        source: None,
        source_record: None,
        rust_module: "tcgen05".to_string(),
        rust_name: "tcgen05_ld".to_string(),
        rust_arguments: vec![],
        rust_result: "()".to_string(),
        safe: false,
        must_use: false,
        safe_allowlist_reason: None,
        public_rust_path: String::new(),
        compatibility_rust_paths: vec![],
        dialect_op_type: String::new(),
        dialect_op_name: String::new(),
        dialect_operands: vec![],
        dialect_results: vec![],
        llvm_symbol: None,
        resolved_llvm_symbol: Some("resolved".to_string()),
        llvm_arguments: vec![],
        llvm_results: vec![],
        lowering: "generated_tcgen05".to_string(),
        pure: false,
        memory: "read".to_string(),
        convergent: true,
        execution_scope: String::new(),
        minimum_ptx: "8.6".to_string(),
        minimum_sm: None,
        targets: "sm_100a".to_string(),
        ptx_isa_version: "8.6".to_string(),
        ptx_isa_section: String::new(),
        ptx_isa_url: String::new(),
        ptx_result: String::new(),
        expected_ptx: ExpectedPtx {
            mnemonic: "tcgen05".to_string(),
            modifiers: vec![],
            operands: vec![],
        },
        backend_lowerings: vec![
            route(IntrinsicBackend::LlvmNvptx),
            route(IntrinsicBackend::LibNvvm),
        ],
        summary: String::new(),
        cache_policy: None,
        tcgen05: None,
        other_contracts: vec![],
    }
}

fn declaration(ld_red: Tcgen05LdRed) -> ImportedIntrinsic {
    ImportedIntrinsic {
        source_record: tcgen05_ld_red_source_record(ld_red),
        llvm_name: tcgen05_ld_red_llvm_symbol(ld_red),
        arguments: tcgen05_ld_red_llvm_arguments(ld_red),
        results: tcgen05_ld_red_llvm_results(ld_red, TOKEN),
        classes: [
            "SDPatternOperator",
            "Intrinsic",
            "DefaultAttrsIntrinsic",
            "DefaultAttrsIntrinsicFlags",
            "NVVM_TCGEN05_LD_RED",
        ]
        .iter()
        .map(|class| class.to_string())
        .collect(),
        properties: tcgen05_ld_red_imported_properties(ld_red),
        selections: vec![],
    }
}

fn materialized(ld_red: Tcgen05LdRed) -> OverlayIntrinsic {
    materialize_tcgen05_ld_red_variant(&base(), &admission(), &variant(ld_red), TOKEN, SCOPE)
}

fn validate(record: &OverlayIntrinsic, ld_red: Tcgen05LdRed) -> Result<(), String> {
    validate_tcgen05_ld_red_policy(
        record,
        &declaration(ld_red),
        record.tcgen05.as_ref().unwrap(),
        ld_red,
        TOKEN,
        SCOPE,
    )
    .map_err(|error| error.message)
}

#[test]
fn variants_are_listed_in_canonical_order() {
    let variants = tcgen05_ld_red_variants();
    assert_eq!(variants.len(), 168);
    let mut expected = Vec::new();
    for shape in [Tcgen05LdShape::M32x32b, Tcgen05LdShape::M16x32bx2] {
        for multiplicity in [
            Tcgen05LdMultiplicity::X2,
            Tcgen05LdMultiplicity::X4,
            Tcgen05LdMultiplicity::X8,
            Tcgen05LdMultiplicity::X16,
            Tcgen05LdMultiplicity::X32,
            Tcgen05LdMultiplicity::X64,
            Tcgen05LdMultiplicity::X128,
        ] {
            for element in [
                Tcgen05LdRedElement::U32,
                Tcgen05LdRedElement::S32,
                Tcgen05LdRedElement::F32,
            ] {
                for op in [Tcgen05LdRedOp::Min, Tcgen05LdRedOp::Max] {
                    for (abs, nan) in [(false, false), (false, true), (true, false), (true, true)] {
                        if element == Tcgen05LdRedElement::F32 || !(abs || nan) {
                            expected.push(Tcgen05LdRed {
                                shape,
                                multiplicity,
                                op,
                                element,
                                abs,
                                nan,
                            });
                        }
                    }
                }
            }
        }
    }
    assert_eq!(variants, expected);
}

#[test]
fn names_are_exact() {
    assert_eq!(
        tcgen05_ld_red_id(qualified()),
        "tcgen05_ld_red_16x32bx2_x64_max_abs_nan_f32"
    );
    assert_eq!(
        tcgen05_ld_red_operation_key(qualified()),
        "tcgen05.ld.red.16x32bx2.x64.max.abs.nan.f32"
    );
    assert_eq!(
        tcgen05_ld_red_source_record(qualified()),
        "int_nvvm_tcgen05_ld_red_16x32bx2_x64_f32"
    );
    assert_eq!(
        tcgen05_ld_red_llvm_symbol(qualified()),
        "llvm.nvvm.tcgen05.ld.red.16x32bx2.x64.f32"
    );
    assert_eq!(
        tcgen05_ld_red_op_type(qualified()),
        "Tcgen05LdRed16x32bx2X64MaxAbsNanF32Op"
    );
    assert_eq!(tcgen05_ld_red_rust_result(qualified()), "([f32; 64], f32)");
    assert_eq!(
        tcgen05_ld_red_summary(qualified()),
        "Loads 64 f32 values from tensor memory and reduces them to their maximum absolute value, propagating NaN inputs."
    );
    assert_eq!(tcgen05_ld_red_id(plain()), "tcgen05_ld_red_32x32b_x2_min_s32");
    assert_eq!(
        tcgen05_ld_red_source_record(plain()),
        "int_nvvm_tcgen05_ld_red_32x32b_x2_i32"
    );
    assert_eq!(
        tcgen05_ld_red_op_type(plain()),
        "Tcgen05LdRed32x32bX2MinS32Op"
    );
    assert_eq!(tcgen05_ld_red_rust_result(plain()), "([i32; 2], i32)");
    assert_eq!(
        tcgen05_ld_red_summary(plain()),
        "Loads 2 signed 32-bit values from tensor memory and reduces them to their minimum value."
    );
    assert_eq!(tcgen05_ld_red_flag_suffix(qualified(), "_"), "_abs_nan");
    assert_eq!(tcgen05_ld_red_flag_suffix(plain(), "_"), "");
    assert_eq!(tcgen05_ld_shape_name(Tcgen05LdShape::M16x256b), "16x256b");
    assert_eq!(tcgen05_ld_multiplicity_name(Tcgen05LdMultiplicity::X1), "x1");
}

#[test]
fn names_are_distinct() {
    let mut names = Vec::new();
    for ld_red in tcgen05_ld_red_variants() {
        names.push(tcgen05_ld_red_id(ld_red));
        names.push(tcgen05_ld_red_operation_key(ld_red));
        names.push(tcgen05_ld_red_op_type(ld_red));
    }
    names.sort();
    names.dedup();
    assert_eq!(names.len(), 3 * 168);
}

#[test]
fn imported_declarations_are_exact() {
    assert_eq!(
        tcgen05_ld_red_llvm_arguments(qualified()),
        ["tmem_ptr", "i64", "i32", "i1", "i1"]
    );
    assert_eq!(tcgen05_ld_red_llvm_arguments(plain()), ["tmem_ptr", "i32"]);
    assert_eq!(
        tcgen05_ld_red_imported_properties(qualified()),
        [
            "ImmArg<arg1>",
            "ImmArg<arg2>",
            "ImmArg<arg3>",
            "ImmArg<arg4>",
            "IntrArgMemOnly",
            "IntrConvergent",
            "NoCapture<arg0>",
        ]
    );
    assert_eq!(
        tcgen05_ld_red_llvm_results(qualified(), TOKEN),
        ["anonymous_10059", "anonymous_10023"]
    );
    assert_eq!(
        tcgen05_ld_red_llvm_results(plain(), TOKEN),
        [TOKEN, "anonymous_10027"]
    );
    let vectors: Vec<String> = tcgen05_ld_red_variants()
        .into_iter()
        .filter(|ld_red| {
            ld_red.shape == Tcgen05LdShape::M32x32b
                && ld_red.element == Tcgen05LdRedElement::F32
                && ld_red.op == Tcgen05LdRedOp::Min
                && !ld_red.abs
                && !ld_red.nan
        })
        .map(|ld_red| tcgen05_ld_red_llvm_results(ld_red, TOKEN)[0].clone())
        .collect();
    assert_eq!(
        vectors,
        [
            "anonymous_10022",
            "anonymous_10031",
            "anonymous_10038",
            "anonymous_10045",
            "anonymous_10052",
            "anonymous_10059",
            "anonymous_10066",
        ]
    );
}

#[test]
fn ld_red_instructions_are_exact() {
    assert_eq!(
        tcgen05_ld_red_modifiers(qualified()),
        ["ld", "red", "sync", "aligned", "16x32bx2", "x64", "max", "abs", "NaN", "f32"]
    );
    assert_eq!(
        tcgen05_ld_red_operands(qualified()),
        [
            OperandPattern::RegisterList { length: 64 },
            OperandPattern::Register,
            OperandPattern::Address,
            OperandPattern::Immediate,
        ]
    );
    assert_eq!(tcgen05_ld_red_operands(plain()).len(), 3);
    assert!(tcgen05_ld_red_has_half_split_offset(qualified()));
    assert!(!tcgen05_ld_red_has_half_split_offset(plain()));
    let wide = Tcgen05LdRed {
        shape: Tcgen05LdShape::M16x256b,
        multiplicity: Tcgen05LdMultiplicity::X128,
        ..plain()
    };
    assert_eq!(tcgen05_ld_red_register_count(wide), 512);
}

#[test]
fn records_are_built_over_the_base() {
    let record = materialized(qualified());
    assert_eq!(record.abi_id, "i2000");
    assert_eq!(record.rust_arguments, ["u32", "i64"]);
    assert!(record.must_use);
    assert_eq!(
        record.public_rust_path,
        "cuda_intrinsics::tcgen05::tcgen05_ld_red_16x32bx2_x64_max_abs_nan_f32"
    );
    assert_eq!(
        record.compatibility_rust_paths,
        ["cuda_device::tcgen05::__tcgen05_ld_red_16x32bx2_x64_max_abs_nan_f32"]
    );
    assert_eq!(record.dialect_operands, ["i32", "i64"]);
    assert_eq!(record.dialect_results.len(), 65);
    assert_eq!(record.resolved_llvm_symbol, None);
    assert_eq!(record.targets, "sm_103a|sm_110a");
    assert_eq!(record.execution_scope, SCOPE);
    assert_eq!(record.backend_lowerings[0].targets, None);
    assert_eq!(record.backend_lowerings[0].evidence_profile, "llvm evidence");
    assert_eq!(
        record.backend_lowerings[1].targets,
        Some("sm_103a|sm_110a".to_string())
    );
    assert_eq!(
        record.backend_lowerings[1].minimum_ptx,
        Some("8.8".to_string())
    );
    let tcgen05 = record.tcgen05.unwrap();
    assert_eq!(tcgen05.operation, Tcgen05Operation::LdRed);
    assert_eq!(tcgen05.ld_red, Some(qualified()));
    assert_eq!(
        tcgen05.adapter,
        Tcgen05Adapter::TmemHalfSplitOffsetInjectReductionToRegistersAndValue
    );
    assert_eq!(record.memory, "read");

    let mut longer = base();
    longer.backend_lowerings.push(route(IntrinsicBackend::LibNvvm));
    let record = materialize_tcgen05_ld_red_variant(
        &longer,
        &admission(),
        &variant(plain()),
        TOKEN,
        SCOPE,
    );
    assert_eq!(record.backend_lowerings.len(), 3);
    assert_eq!(
        record.backend_lowerings[2].targets,
        Some("all".to_string())
    );
    assert_eq!(
        record.compatibility_rust_paths,
        ["cuda_device::tcgen05::tcgen05_ld_red_32x32b_x2_min_s32"]
    );
}

#[test]
fn materialized_records_are_valid() {
    for ld_red in tcgen05_ld_red_variants() {
        assert_eq!(validate(&materialized(ld_red), ld_red), Ok(()));
    }
}

#[test]
fn each_ld_red_rule_has_its_refusal() {
    let ld_red = plain();
    let id = "tcgen05_ld_red_32x32b_x2_min_s32";
    let refused = |record: &OverlayIntrinsic| validate(record, ld_red).unwrap_err();

    let unsupported = Tcgen05LdRed {
        multiplicity: Tcgen05LdMultiplicity::X1,
        ..ld_red
    };
    assert_eq!(
        validate(&materialized(unsupported), unsupported).unwrap_err(),
        "tcgen05_ld_red_32x32b_x1_min_s32 has an unsupported tcgen05 reducing-load identity"
    );

    let mut record = materialized(ld_red);
    record.resolved_llvm_symbol = Some("x".to_string());
    assert_eq!(
        refused(&record),
        format!("{id} tcgen05 reducing-load identity changed")
    );

    let mut record = materialized(ld_red);
    record.safe = true;
    assert_eq!(
        refused(&record),
        format!("{id} tcgen05 reducing-load Rust API changed")
    );

    let mut record = materialized(ld_red);
    record.dialect_results.pop();
    assert_eq!(
        refused(&record),
        format!("{id} tcgen05 reducing-load carrier or imported declaration changed")
    );

    let mut record = materialized(ld_red);
    record.tcgen05.as_mut().unwrap().runtime_validation = RuntimeValidation::Executed;
    assert_eq!(
        refused(&record),
        format!("{id} tcgen05 reducing-load semantics changed")
    );

    let mut record = materialized(ld_red);
    record.expected_ptx.operands.push(OperandPattern::Immediate);
    assert_eq!(
        refused(&record),
        format!("{id} tcgen05 reducing-load target or PTX contract changed")
    );

    let mut record = materialized(ld_red);
    record.backend_lowerings[0].targets = Some("sm_103a|sm_110a".to_string());
    assert_eq!(
        refused(&record),
        format!("{id} tcgen05 reducing-load backend route changed")
    );

    let mut record = materialized(ld_red);
    record.other_contracts.push("wgmma".to_string());
    assert_eq!(
        refused(&record),
        format!("{id} tcgen05 reducing load record carries another family contract")
    );
}
