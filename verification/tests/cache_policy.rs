//! The `createpolicy` family: instructions, recipes and records.

use cuda_oxide::catalog::cache_policy::{
    CachePolicy, CachePolicyForm, CachePolicyPriority, CachePolicySecondaryPriority,
};
use cuda_oxide::catalog::tcgen05::{
    RuntimeValidation, Tcgen05, Tcgen05Adapter, Tcgen05Operation, Tcgen05SourceContract,
};
use cuda_oxide::catalog::{
    BackendLowering, BackendLoweringMechanism, ExpectedPtx, ImportedIntrinsic, IntrinsicSource,
    OperandPattern, OverlayIntrinsic,
};
use cuda_oxide::lower::IntrinsicBackend;
use cuda_oxide::resolve::cache_policy::{
    cache_policy_recipe, validate_cache_policy_policy, CACHE_POLICY_ISA_SECTION,
    CACHE_POLICY_ISA_URL,
};

const PRIORITIES: [CachePolicyPriority; 4] = [
    CachePolicyPriority::EvictLast,
    CachePolicyPriority::EvictNormal,
    CachePolicyPriority::EvictFirst,
    CachePolicyPriority::EvictUnchanged,
];

fn policies() -> Vec<CachePolicy> {
    let mut all = Vec::new();
    for secondary in [
        CachePolicySecondaryPriority::EvictUnchanged,
        CachePolicySecondaryPriority::EvictFirst,
    ] {
        for primary in PRIORITIES {
            all.push(CachePolicy {
                form: CachePolicyForm::Fractional,
                primary,
                secondary,
            });
        }
    }
    all
}

fn route(backend: IntrinsicBackend) -> BackendLowering {
    BackendLowering {
        backend,
        mechanism: BackendLoweringMechanism::InlinePtx,
        targets: None,
        minimum_ptx: None,
        minimum_sm: None,
        evidence_profile: "assembled".to_string(),
    }
}

/// The record that a policy has to have.
fn record(policy: CachePolicy) -> OverlayIntrinsic {
    let recipe = cache_policy_recipe(policy.form, policy.primary, policy.secondary);
    OverlayIntrinsic {
        id: recipe.id.to_string(),
        abi_id: recipe.abi_id.to_string(),
        operation_key: recipe.operation_key.to_string(),
        source: None,
        source_record: None,
        rust_module: "cache_policy".to_string(),
        rust_name: recipe.id.to_string(),
        rust_arguments: vec!["f32".to_string()],
        rust_result: "u64".to_string(),
        safe: true,
        must_use: true,
        safe_allowlist_reason: Some("no memory is accessed".to_string()),
        public_rust_path: format!("cuda_intrinsics::cache_policy::{}", recipe.id),
        compatibility_rust_paths: vec![format!("cuda_device::cache_policy::{}", recipe.id)],
        dialect_op_type: recipe.dialect_op_type.to_string(),
        dialect_op_name: format!("nvvm.{}", recipe.id),
        dialect_operands: vec!["f32".to_string()],
        dialect_results: vec!["i64".to_string()],
        llvm_symbol: None,
        resolved_llvm_symbol: None,
        llvm_arguments: vec![],
        llvm_results: vec![],
        lowering: "generated_cache_policy_inline_ptx".to_string(),
        pure: true,
        memory: "none".to_string(),
        convergent: false,
        execution_scope: "thread".to_string(),
        minimum_ptx: "7.4".to_string(),
        minimum_sm: Some("sm_80".to_string()),
        targets: "all".to_string(),
        ptx_isa_version: "9.3".to_string(),
        ptx_isa_section: CACHE_POLICY_ISA_SECTION.to_string(),
        ptx_isa_url: CACHE_POLICY_ISA_URL.to_string(),
        ptx_result: "u64".to_string(),
        expected_ptx: ExpectedPtx {
            mnemonic: "createpolicy".to_string(),
            modifiers: recipe.modifiers.iter().map(|m| m.to_string()).collect(),
            operands: vec![OperandPattern::Register; 2],
        },
        backend_lowerings: vec![
            route(IntrinsicBackend::LlvmNvptx),
            route(IntrinsicBackend::LibNvvm),
        ],
        summary: String::new(),
        cache_policy: Some(policy),
        tcgen05: None,
        other_contracts: vec![],
    }
}

fn source(policy: CachePolicy) -> IntrinsicSource {
    IntrinsicSource::PtxNative {
        instruction: policy.ptx_instruction(),
    }
}

fn refusal(record: &OverlayIntrinsic, policy: CachePolicy) -> String {
    validate_cache_policy_policy(record, &source(policy), None)
        .unwrap_err()
        .message
}

#[test]
fn instructions_are_exact() {
    let mut instructions: Vec<String> = policies().iter().map(|p| p.ptx_instruction()).collect();
    assert_eq!(
        instructions,
        [
            "createpolicy.fractional.L2::evict_last.b64",
            "createpolicy.fractional.L2::evict_normal.b64",
            "createpolicy.fractional.L2::evict_first.b64",
            "createpolicy.fractional.L2::evict_unchanged.b64",
            "createpolicy.fractional.L2::evict_last.L2::evict_first.b64",
            "createpolicy.fractional.L2::evict_normal.L2::evict_first.b64",
            "createpolicy.fractional.L2::evict_first.L2::evict_first.b64",
            "createpolicy.fractional.L2::evict_unchanged.L2::evict_first.b64",
        ]
    );
    instructions.sort();
    instructions.dedup();
    assert_eq!(instructions.len(), 8);
    assert_eq!(CachePolicyPriority::EvictFirst.ptx_qualifier(), "L2::evict_first");
}

#[test]
fn instructions_spell_their_modifiers() {
    for policy in policies() {
        let recipe = cache_policy_recipe(policy.form, policy.primary, policy.secondary);
        assert_eq!(
            policy.ptx_instruction(),
            format!("createpolicy.{}", recipe.modifiers.join("."))
        );
    }
}

#[test]
fn recipes_are_exact_and_distinct() {
    let policy = policies()[5];
    let recipe = cache_policy_recipe(policy.form, policy.primary, policy.secondary);
    assert_eq!(recipe.id, "createpolicy_fractional_evict_normal_evict_first");
    assert_eq!(recipe.abi_id, "i1044");
    assert_eq!(
        recipe.operation_key,
        "memory.cache_policy.l2.fractional.evict_normal.evict_first"
    );
    assert_eq!(
        recipe.dialect_op_type,
        "CreatepolicyFractionalEvictNormalEvictFirstOp"
    );
    assert_eq!(
        recipe.modifiers,
        ["fractional", "L2::evict_normal", "L2::evict_first", "b64"]
    );
    let mut ids = Vec::new();
    for policy in policies() {
        let recipe = cache_policy_recipe(policy.form, policy.primary, policy.secondary);
        ids.push(recipe.id);
        ids.push(recipe.abi_id);
        ids.push(recipe.operation_key);
        ids.push(recipe.dialect_op_type);
    }
    ids.sort();
    ids.dedup();
    assert_eq!(ids.len(), 32);
}

#[test]
fn exact_records_are_valid() {
    for policy in policies() {
        assert_eq!(
            validate_cache_policy_policy(&record(policy), &source(policy), None),
            Ok(())
        );
    }
}

#[test]
fn each_rule_has_its_refusal() {
    let policy = policies()[0];
    let id = "createpolicy_fractional_evict_last";

    let mut missing = record(policy);
    missing.cache_policy = None;
    assert_eq!(
        refusal(&missing, policy),
        format!("{id} has no closed cache-policy contract")
    );

    let mut other = record(policy);
    other.cache_policy = Some(policies()[1]);
    assert_eq!(
        refusal(&other, policy),
        format!("{id} cache-policy identity does not match its closed recipe")
    );

    let mut unreasoned = record(policy);
    unreasoned.safe_allowlist_reason = Some(" \t\u{3000}\n".to_string());
    assert_eq!(
        refusal(&unreasoned, policy),
        format!("{id} must preserve its reviewed safe cache-policy API")
    );

    let mut relowered = record(policy);
    relowered.dialect_results = vec!["i64".to_string(), "i64".to_string()];
    assert_eq!(
        refusal(&relowered, policy),
        format!("{id} is outside the closed cache-policy dialect and lowering recipe")
    );

    let mut convergent = record(policy);
    convergent.convergent = true;
    assert_eq!(
        refusal(&convergent, policy),
        format!("{id} cache-policy effects, carrier, or target floor disagree")
    );

    let mut uncited = record(policy);
    uncited.ptx_isa_section = "createpolicy".to_string();
    assert_eq!(
        refusal(&uncited, policy),
        format!("{id} cache-policy PTX provenance does not match its reviewed instruction section")
    );

    let mut unexpected = record(policy);
    unexpected.expected_ptx.operands = vec![OperandPattern::Register, OperandPattern::Immediate];
    assert_eq!(
        refusal(&unexpected, policy),
        format!("{id} expected PTX does not match its exact createpolicy instruction")
    );

    let sourceless = format!("{id} cache-policy source does not match its PTX-native recipe");
    assert_eq!(refusal(&record(policy), policies()[1]), sourceless);
    assert_eq!(
        validate_cache_policy_policy(
            &record(policy),
            &IntrinsicSource::LlvmDeclaration {
                source_record: policy.ptx_instruction()
            },
            None
        )
        .unwrap_err()
        .message,
        sourceless
    );
    let declaration = ImportedIntrinsic {
        source_record: String::new(),
        llvm_name: String::new(),
        arguments: vec![],
        results: vec![],
        classes: vec![],
        properties: vec![],
        selections: vec![],
    };
    assert_eq!(
        validate_cache_policy_policy(&record(policy), &source(policy), Some(&declaration))
            .unwrap_err()
            .message,
        sourceless
    );

    let mut rerouted = record(policy);
    rerouted.backend_lowerings.swap(0, 1);
    assert_eq!(
        refusal(&rerouted, policy),
        format!("{id} cache-policy backend route changed")
    );
    let mut unevidenced = record(policy);
    unevidenced.backend_lowerings[1].evidence_profile = String::new();
    assert_eq!(
        refusal(&unevidenced, policy),
        format!("{id} cache-policy backend route changed")
    );

    let mut foreign = record(policy);
    foreign.tcgen05 = Some(Tcgen05 {
        operation: Tcgen05Operation::Ld,
        cp: None,
        ld: None,
        ld_red: None,
        st: None,
        mma: None,
        adapter: Tcgen05Adapter::Other,
        source_contract: Tcgen05SourceContract::LlvmSelection,
        runtime_validation: RuntimeValidation::Unexecuted,
    });
    assert_eq!(
        refusal(&foreign, policy),
        format!("{id} cache_policy record carries another family contract")
    );
}

#[test]
fn the_first_broken_rule_is_named() {
    let policy = policies()[3];
    let mut broken = record(policy);
    broken.backend_lowerings.pop();
    broken.pure = false;
    assert_eq!(
        refusal(&broken, policy),
        "createpolicy_fractional_evict_unchanged cache-policy effects, carrier, or target floor disagree"
    );
}
