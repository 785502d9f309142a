//! What every lowering plan keeps, whatever the operation.

use crate::lower::bulk::{
    bulk_arguments, bulk_constraints, bulk_operand_count, bulk_outcome, direction_named,
    source_position, trailing_position, BulkConfig, BulkDirection,
};
use crate::lower::cache_policy::cache_policy_outcome;
use crate::lower::ptx::{g2s_constraints, prefetch_tile_constraints, s2g_constraints};
use crate::lower::tma::{
    control_outcome, g2s_outcome, prefetch_tensormap_outcome, prefetch_tile_outcome,
    reduce_outcome, replace_constraints, replacement_width, s2g_inputs, s2g_outcome, tensormap_fence_outcome, tensormap_replace_outcome,
    PrefetchTileConfig, ReduceConfig,
};
use crate::lower::{
    address_in, arg_if, count_if, Arg, AsmKind, EmissionView, IntrinsicBackend, LoweringView,
    TypedArg, ValueType,
};
use crate::text::joined;
use vstd::prelude::*;

verus! {

/// Whether a value is a constant or one of the first operands of an operation.
pub open spec fn is_within(value: Arg, operand_count: nat) -> bool {
    match value {
        Arg::Operand(operand) => operand < operand_count,
        Arg::Shared(operand) => operand < operand_count,
        Arg::Cluster(operand) => operand < operand_count,
        Arg::InSpace { operand, .. } => operand < operand_count,
        _ => true,
    }
}

/// Whether a list of constraints fits inline assembly: one for the result, one
/// per input, and the memory clobber unless it is pure.
pub open spec fn fits(
    list: Seq<Seq<char>>,
    kind: AsmKind,
    has_result: bool,
    input_count: nat,
) -> bool {
    &&& list.len() == count_if(has_result) + input_count + count_if(kind != AsmKind::Pure)
    &&& kind != AsmKind::Pure ==> list.last() == "~{memory}"@
}

/// Whether an emission refers to existing operands only, and constrains each of
/// its inputs.
pub open spec fn is_sound_emission(emission: EmissionView, operand_count: nat) -> bool {
    match emission {
        EmissionView::InlineAsm { kind, result, inputs, constraints, .. } => {
            &&& forall|i: int|
                0 <= i < inputs.len() ==> is_within(#[trigger] inputs[i], operand_count)
            &&& exists|list: Seq<Seq<char>>|
                constraints == #[trigger] joined(list, ","@) && fits(
                    list,
                    kind,
                    result is Some,
                    inputs.len(),
                )
        },
        EmissionView::Call { arguments, .. } => {
            forall|i: int|
                0 <= i < arguments.len() ==> is_within(
                    (#[trigger] arguments[i]).value,
                    operand_count,
                )
        },
    }
}

/// Whether an outcome is a refusal, or a plan that refers to existing operands
/// only and constrains each of its inputs.
pub open spec fn is_sound(outcome: Result<LoweringView, Seq<char>>, operand_count: nat) -> bool {
    outcome matches Ok(plan) ==> is_sound_emission(plan.emission, operand_count)
}

/// Whether both backends refuse, with the same text, or neither does.
pub open spec fn is_agreed(
    llvm: Result<LoweringView, Seq<char>>,
    libnvvm: Result<LoweringView, Seq<char>>,
) -> bool {
    match (llvm, libnvvm) {
        (Ok(_), Ok(_)) => true,
        (Err(a), Err(b)) => a == b,
        _ => false,
    }
}

/// Two constraints as they are written.
proof fn two_constraints(first: Seq<char>, second: Seq<char>)
    ensures
        joined(seq![first, second], ","@) == first + ","@ + second,
{
    let list = seq![first, second];
    assert(list.drop_last() =~= seq![first]);
    assert(joined(list.drop_last(), ","@) == first);
}

/// Global-to-shared copies: plans are sound, and the backends agree but for a
/// destination that is no pointer, which only libNVVM refuses.
pub proof fn g2s_plans_are_sound(
    spaces: Seq<Option<u32>>,
    backend: IntrinsicBackend,
    dims: nat,
    multicast: bool,
    cta_group: i32,
)
    requires
        dims + 5 <= usize::MAX,
    ensures
        is_sound(g2s_outcome(spaces, backend, dims, multicast, cta_group), spaces.len()),
        (spaces.len() != dims + 5 || spaces[0] is Some) ==> is_agreed(
            g2s_outcome(spaces, IntrinsicBackend::LlvmNvptx, dims, multicast, cta_group),
            g2s_outcome(spaces, IntrinsicBackend::LibNvvm, dims, multicast, cta_group),
        ),
{
    let list = g2s_constraints(dims, multicast);
    assert(list.last() == "~{memory}"@);
    if let Ok(plan) = g2s_outcome(spaces, backend, dims, multicast, cta_group) {
        if let EmissionView::InlineAsm { constraints, inputs, .. } = plan.emission {
            assert(inputs.len() == 3 + dims + count_if(multicast));
            assert(fits(list, AsmKind::Convergent, false, inputs.len()));
            assert(constraints == joined(list, ","@));
        }
    }
}

/// Shared-to-global copies: plans are sound, and the backends agree.
pub proof fn s2g_plans_are_sound(spaces: Seq<Option<u32>>, backend: IntrinsicBackend, dims: nat)
    requires
        dims + 2 <= usize::MAX,
    ensures
        is_sound(s2g_outcome(spaces, backend, dims), spaces.len()),
        is_agreed(
            s2g_outcome(spaces, IntrinsicBackend::LlvmNvptx, dims),
            s2g_outcome(spaces, IntrinsicBackend::LibNvvm, dims),
        ),
{
    let list = s2g_constraints(dims);
    assert(list.last() == "~{memory}"@);
    assert(s2g_inputs(dims).len() == 2 + dims);
    assert(fits(list, AsmKind::Convergent, false, s2g_inputs(dims).len()));
    assert(joined(list, ","@) == joined(s2g_constraints(dims), ","@));
}

/// Tensor reductions: plans are sound, and the backends agree.
pub proof fn reduce_plans_are_sound(
    spaces: Seq<Option<u32>>,
    result_count: usize,
    backend: IntrinsicBackend,
    config: ReduceConfig<'_>,
)
    requires
        config.dims + 2 <= usize::MAX,
    ensures
        is_sound(reduce_outcome(spaces, result_count, backend, config), spaces.len()),
        is_agreed(
            reduce_outcome(spaces, result_count, IntrinsicBackend::LlvmNvptx, config),
            reduce_outcome(spaces, result_count, IntrinsicBackend::LibNvvm, config),
        ),
{
    let dims = config.dims as nat;
    let list = s2g_constraints(dims);
    assert(list.last() == "~{memory}"@);
    assert(s2g_inputs(dims).len() == 2 + dims);
    assert(fits(list, AsmKind::Convergent, false, s2g_inputs(dims).len()));
    assert(joined(list, ","@) == joined(s2g_constraints(dims), ","@));
}

/// Tensor-map prefetches: plans are sound, and the backends agree.
pub proof fn prefetch_tensormap_plans_are_sound(
    operand_count: nat,
    result_count: usize,
    backend: IntrinsicBackend,
    intrinsic_name: Seq<char>,
)
    ensures
        is_sound(
            prefetch_tensormap_outcome(operand_count, result_count, backend, intrinsic_name),
            operand_count,
        ),
        is_agreed(
            prefetch_tensormap_outcome(
                operand_count,
                result_count,
                IntrinsicBackend::LlvmNvptx,
                intrinsic_name,
            ),
            prefetch_tensormap_outcome(
                operand_count,
                result_count,
                IntrinsicBackend::LibNvvm,
                intrinsic_name,
            ),
        ),
{
    one_address_and_clobber();
}

/// The constraints of one address and the memory clobber.
proof fn one_address_and_clobber()
    ensures
        "l,~{memory}"@ == joined(seq!["l"@, "~{memory}"@], ","@),
        "n,~{memory}"@ == joined(seq!["n"@, "~{memory}"@], ","@),
        "~{memory}"@ == joined(seq!["~{memory}"@], ","@),
        "=l,f"@ == joined(seq!["=l"@, "f"@], ","@),
{
    reveal_strlit("l,~{memory}");
    reveal_strlit("n,~{memory}");
    reveal_strlit("l");
    reveal_strlit("n");
    reveal_strlit(",");
    reveal_strlit("~{memory}");
    reveal_strlit("=l,f");
    reveal_strlit("=l");
    reveal_strlit("f");
    two_constraints("l"@, "~{memory}"@);
    two_constraints("n"@, "~{memory}"@);
    two_constraints("=l"@, "f"@);
    assert("l,~{memory}"@ =~= "l"@ + ","@ + "~{memory}"@);
    assert("n,~{memory}"@ =~= "n"@ + ","@ + "~{memory}"@);
    assert("=l,f"@ =~= "=l"@ + ","@ + "f"@);
}

/// Tensor tile prefetches: plans are sound, and the backends agree.
pub proof fn prefetch_tile_plans_are_sound(
    operand_count: nat,
    result_count: usize,
    backend: IntrinsicBackend,
    config: PrefetchTileConfig<'_>,
)
    requires
        config.coordinate_count + 2 <= usize::MAX,
    ensures
        is_sound(
            prefetch_tile_outcome(operand_count, result_count, backend, config),
            operand_count,
        ),
        is_agreed(
            prefetch_tile_outcome(operand_count, result_count, IntrinsicBackend::LlvmNvptx, config),
            prefetch_tile_outcome(operand_count, result_count, IntrinsicBackend::LibNvvm, config),
        ),
{
    let list = prefetch_tile_constraints(config.coordinate_count as nat, config.use_cache_hint);
    assert(list.last() == "~{memory}"@);
    if let Ok(plan) = prefetch_tile_outcome(operand_count, result_count, backend, config) {
        if let EmissionView::InlineAsm { constraints, inputs, .. } = plan.emission {
            assert(inputs.len() == operand_count);
            assert(fits(list, AsmKind::Convergent, false, inputs.len()));
            assert(constraints == joined(list, ","@));
        }
    }
}

/// Whether arguments are constants or among the first operands.
spec fn all_within(arguments: Seq<TypedArg>, operand_count: nat) -> bool {
    forall|i: int|
        0 <= i < arguments.len() ==> is_within((#[trigger] arguments[i]).value, operand_count)
}

proof fn lists_within(a: Seq<TypedArg>, b: Seq<TypedArg>, operand_count: nat)
    requires
        all_within(a, operand_count),
        all_within(b, operand_count),
    ensures
        all_within(a + b, operand_count),
{
    assert forall|i: int| 0 <= i < (a + b).len() implies is_within(
        (#[trigger] (a + b)[i]).value,
        operand_count,
    ) by {
        if i < a.len() {
            assert((a + b)[i] == a[i]);
        } else {
            assert((a + b)[i] == b[i - a.len()]);
        }
    }
}

/// The typed arguments of a bulk operation are within its operands.
proof fn bulk_arguments_are_within(
    spaces: Seq<Option<u32>>,
    direction: BulkDirection,
    multicast: bool,
    cache_hint: bool,
    byte_mask: bool,
)
    requires
        spaces.len() == bulk_operand_count(direction, multicast, cache_hint, byte_mask),
    ensures
        all_within(
            bulk_arguments(spaces, direction, multicast, cache_hint, byte_mask),
            spaces.len(),
        ),
{
    let n = spaces.len();
    let source = source_position(direction);
    let trailing = trailing_position(direction);
    let to_cluster = direction == BulkDirection::GlobalToCluster;
    let hinted = direction != BulkDirection::CtaToCluster;
    let l1 = arg_if(
        !direction.is_prefetch(),
        ValueType::Pointer(direction.destination_space()),
        address_in(spaces, 0, direction.destination_space()),
    );
    let l2 = arg_if(
        direction.uses_barrier(),
        ValueType::Pointer(3),
        Arg::Shared((source + 2) as usize),
    );
    let l3 = seq![
        TypedArg {
            ty: ValueType::Pointer(direction.source_space()),
            value: address_in(spaces, source, direction.source_space()),
        },
    ];
    let l4 = seq![
        TypedArg { ty: ValueType::Integer(32), value: Arg::Operand((source + 1) as usize) },
    ];
    let l5 = arg_if(
        to_cluster,
        ValueType::Integer(16),
        if multicast {
            Arg::Operand(trailing as usize)
        } else {
            Arg::I16(0)
        },
    );
    let l6 = arg_if(
        hinted,
        ValueType::Integer(64),
        if cache_hint {
            Arg::Operand((trailing + count_if(multicast)) as usize)
        } else {
            Arg::I64(0)
        },
    );
    let l7 = arg_if(to_cluster, ValueType::Integer(1), Arg::I1(multicast));
    let l8 = arg_if(hinted, ValueType::Integer(1), Arg::I1(cache_hint));
    let l9 = arg_if(
        byte_mask,
        ValueType::Integer(16),
        Arg::Operand((trailing + count_if(multicast) + count_if(cache_hint)) as usize),
    );
    lists_within(l1, l2, n);
    lists_within(l1 + l2, l3, n);
    lists_within(l1 + l2 + l3, l4, n);
    lists_within(l1 + l2 + l3 + l4, l5, n);
    lists_within(l1 + l2 + l3 + l4 + l5, l6, n);
    lists_within(l1 + l2 + l3 + l4 + l5 + l6, l7, n);
    lists_within(l1 + l2 + l3 + l4 + l5 + l6 + l7, l8, n);
    lists_within(l1 + l2 + l3 + l4 + l5 + l6 + l7 + l8, l9, n);
}

/// The constraints of a bulk operation are one per operand and the clobber.
proof fn bulk_constraints_fit(
    direction: BulkDirection,
    multicast: bool,
    cache_hint: bool,
    byte_mask: bool,
)
    ensures
        fits(
            bulk_constraints(direction, multicast, cache_hint, byte_mask),
            AsmKind::Convergent,
            false,
            bulk_operand_count(direction, multicast, cache_hint, byte_mask),
        ),
{
}

/// Bulk copies and prefetches: plans are sound, and the backends agree.
pub proof fn bulk_plans_are_sound(
    spaces: Seq<Option<u32>>,
    result_count: usize,
    backend: IntrinsicBackend,
    config: BulkConfig<'_>,
)
    ensures
        is_sound(bulk_outcome(spaces, result_count, backend, config), spaces.len()),
        is_agreed(
            bulk_outcome(spaces, result_count, IntrinsicBackend::LlvmNvptx, config),
            bulk_outcome(spaces, result_count, IntrinsicBackend::LibNvvm, config),
        ),
{
    if let Some(direction) = direction_named(config.direction@) {
        let list = bulk_constraints(
            direction,
            config.multicast,
            config.cache_hint,
            config.byte_mask,
        );
        bulk_constraints_fit(direction, config.multicast, config.cache_hint, config.byte_mask);
        if let Ok(plan) = bulk_outcome(spaces, result_count, backend, config) {
            bulk_arguments_are_within(
                spaces,
                direction,
                config.multicast,
                config.cache_hint,
                config.byte_mask,
            );
            if let EmissionView::InlineAsm { constraints, inputs, .. } = plan.emission {
                assert(inputs.len() == spaces.len());
                assert(constraints == joined(list, ","@));
            }
        }
    }
}

/// Tensor-map replacements: plans are sound.
pub proof fn tensormap_replace_plans_are_sound(
    operand_count: nat,
    result_count: usize,
    field: Seq<char>,
    value_kind: Seq<char>,
    ordinal: bool,
    immediate: bool,
)
    ensures
        is_sound(
            tensormap_replace_outcome(
                operand_count,
                result_count,
                field,
                value_kind,
                ordinal,
                immediate,
            ),
            operand_count,
        ),
{
    let outcome = tensormap_replace_outcome(
        operand_count,
        result_count,
        field,
        value_kind,
        ordinal,
        immediate,
    );
    if let Ok(plan) = outcome {
        let list = replace_constraints(replacement_width(value_kind)->0, ordinal, immediate);
        assert(list.last() == "~{memory}"@);
        if let EmissionView::InlineAsm { constraints, inputs, .. } = plan.emission {
            assert(inputs.len() == operand_count);
            assert(fits(list, AsmKind::SideEffect, false, inputs.len()));
            assert(constraints == joined(list, ","@));
        }
    }
}

/// Tensor-map fences: plans are sound, and the backends agree.
pub proof fn tensormap_fence_plans_are_sound(
    operand_count: nat,
    result_count: usize,
    backend: IntrinsicBackend,
    intrinsic_name: Seq<char>,
    acquire: bool,
    scope: Seq<char>,
)
    ensures
        is_sound(
            tensormap_fence_outcome(
                operand_count,
                result_count,
                backend,
                intrinsic_name,
                acquire,
                scope,
            ),
            operand_count,
        ),
        is_agreed(
            tensormap_fence_outcome(
                operand_count,
                result_count,
                IntrinsicBackend::LlvmNvptx,
                intrinsic_name,
                acquire,
                scope,
            ),
            tensormap_fence_outcome(
                operand_count,
                result_count,
                IntrinsicBackend::LibNvvm,
                intrinsic_name,
                acquire,
                scope,
            ),
        ),
{
    one_address_and_clobber();
    let outcome = tensormap_fence_outcome(
        operand_count,
        result_count,
        backend,
        intrinsic_name,
        acquire,
        scope,
    );
    if let Ok(plan) = outcome {
        if let EmissionView::InlineAsm { constraints, inputs, .. } = plan.emission {
            let list = if acquire {
                seq!["l"@, "~{memory}"@]
            } else {
                seq!["~{memory}"@]
            };
            assert(inputs.len() == operand_count);
            assert(fits(list, AsmKind::SideEffect, false, inputs.len()));
            assert(constraints == joined(list, ","@));
        }
    }
}

/// Group controls: plans are sound, and the backends agree.
pub proof fn control_plans_are_sound(
    operand_count: nat,
    result_count: usize,
    backend: IntrinsicBackend,
    operation: Seq<char>,
    intrinsic_name: Seq<char>,
)
    ensures
        is_sound(
            control_outcome(operand_count, result_count, backend, operation, intrinsic_name),
            operand_count,
        ),
        is_agreed(
            control_outcome(
                operand_count,
                result_count,
                IntrinsicBackend::LlvmNvptx,
                operation,
                intrinsic_name,
            ),
            control_outcome(
                operand_count,
                result_count,
                IntrinsicBackend::LibNvvm,
                operation,
                intrinsic_name,
            ),
        ),
{
    one_address_and_clobber();
    let outcome = control_outcome(
        operand_count,
        result_count,
        backend,
        operation,
        intrinsic_name,
    );
    if let Ok(plan) = outcome {
        if let EmissionView::InlineAsm { constraints, inputs, .. } = plan.emission {
            let list = if operand_count == 1 {
                seq!["n"@, "~{memory}"@]
            } else {
                seq!["~{memory}"@]
            };
            assert(inputs.len() == operand_count);
            assert(fits(list, AsmKind::SideEffect, false, inputs.len()));
            assert(constraints == joined(list, ","@));
        }
    }
}

/// Policy creations: plans are sound.
pub proof fn cache_policy_plans_are_sound(operand_count: nat, ptx_instruction: Seq<char>)
    ensures
        is_sound(cache_policy_outcome(operand_count, ptx_instruction), operand_count),
{
    one_address_and_clobber();
    if operand_count == 1 {
        let list = seq!["=l"@, "f"@];
        assert(fits(list, AsmKind::Pure, true, 1));
        assert("=l,f"@ == joined(list, ","@));
    }
}

} // verus!
