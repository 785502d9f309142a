//! Lowering plans of the tensor-memory-access family.

use cuda_oxide::lower::bulk::{bulk_inline_asm, convert_bulk, BulkConfig, BulkDirection};
use cuda_oxide::lower::cache_policy::convert_generated_cache_policy;
use cuda_oxide::lower::ptx::{
    g2s_inline_asm, prefetch_tile_inline_asm, reduce_inline_asm, s2g_inline_asm,
};
use cuda_oxide::lower::tma::{
    convert_control, convert_g2s, convert_g2s_multicast_cg2, convert_prefetch_tensormap,
    convert_prefetch_tile, convert_reduce_s2g, convert_s2g, convert_tensormap_fence,
    convert_tensormap_replace, PrefetchTileConfig, ReduceConfig,
};
use cuda_oxide::lower::{
    cast_to_addrspace, preserve_loop_metadata, Arg, AsmKind, Emission, IntrinsicBackend,
    LoopUnrollAttr, Lowering, LoweringError, OpShape, TypedArg, ValueType,
};
use cuda_oxide::unroll::LlvmLoopUnrollAttr;

const BACKENDS: [IntrinsicBackend; 2] = [IntrinsicBackend::LlvmNvptx, IntrinsicBackend::LibNvvm];

/// An operation whose operands are all generic pointers.
fn shape(operands: usize, results: usize) -> OpShape {
    OpShape {
        operand_spaces: vec![Some(0); operands],
        result_count: results,
    }
}

fn message(result: Result<Lowering, LoweringError>) -> String {
    match result {
        Ok(plan) => panic!("expected a refusal, got {plan:?}"),
        Err(error) => error.message,
    }
}

fn inline(plan: Lowering) -> (Option<usize>, AsmKind, Option<u32>, Vec<Arg>, String, String) {
    match plan.emission {
        Emission::InlineAsm {
            kind,
            result,
            inputs,
            template,
            constraints,
        } => (plan.first, kind, result, inputs, template, constraints),
        Emission::Call { symbol, .. } => panic!("expected inline assembly, got a call of {symbol}"),
    }
}

fn call(plan: Lowering) -> (Option<usize>, String, Vec<TypedArg>) {
    match plan.emission {
        Emission::Call { symbol, arguments } => (plan.first, symbol, arguments),
        Emission::InlineAsm { template, .. } => panic!("expected a call, got {template}"),
    }
}

fn pointer(space: u32, value: Arg) -> TypedArg {
    TypedArg {
        ty: ValueType::Pointer(space),
        value,
    }
}

fn integer(width: u32, value: Arg) -> TypedArg {
    TypedArg {
        ty: ValueType::Integer(width),
        value,
    }
}

#[test]
fn inline_tma_templates_keep_exact_ptx_shapes() {
    assert_eq!(
        g2s_inline_asm(1, false, 0),
        (
            "{ .reg .u64 %cluster_dst; cvta.to.shared::cluster.u64 %cluster_dst, $0; cp.async.bulk.tensor.1d.shared::cluster.global.tile.mbarrier::complete_tx::bytes [%cluster_dst], [$2, {$3}], [$1]; }".into(),
            "l,l,l,r,~{memory}".into(),
        )
    );
    assert_eq!(
        g2s_inline_asm(2, true, 2),
        (
            "{ .reg .u64 %cluster_dst; cvta.to.shared::cluster.u64 %cluster_dst, $0; cp.async.bulk.tensor.2d.shared::cluster.global.tile.mbarrier::complete_tx::bytes.multicast::cluster.cta_group::2 [%cluster_dst], [$2, {$3, $4}], [$1], $5; }".into(),
            "l,l,l,r,r,h,~{memory}".into(),
        )
    );
    assert_eq!(
        s2g_inline_asm(5),
        (
            "cp.async.bulk.tensor.5d.global.shared::cta.tile.bulk_group [$1, {$2, $3, $4, $5, $6}], [$0];".into(),
            "l,l,r,r,r,r,r,~{memory}".into(),
        )
    );
}

#[test]
fn inline_tma_reduction_templates_keep_exact_ptx_shapes() {
    assert_eq!(
        reduce_inline_asm(2, "add", "tile").unwrap(),
        (
            "cp.reduce.async.bulk.tensor.2d.global.shared::cta.add.tile.bulk_group [$1, {$2, $3}], [$0];".into(),
            "l,l,r,r,~{memory}".into(),
        )
    );

    assert_eq!(
        reduce_inline_asm(3, "xor", "im2col").unwrap(),
        (
            "cp.reduce.async.bulk.tensor.3d.global.shared::cta.xor.im2col_no_offs.bulk_group [$1, {$2, $3, $4}], [$0];".into(),
            "l,l,r,r,r,~{memory}".into(),
        )
    );
}

#[test]
fn reductions_are_refused_for_exact_reasons() {
    let text = |dims, reduction, mode| reduce_inline_asm(dims, reduction, mode).unwrap_err().message;
    assert_eq!(
        text(0, "add", "tile"),
        "TMA reduction requires 1 through 5 dimensions, got 0"
    );
    assert_eq!(
        text(6, "sub", "tile"),
        "TMA reduction requires 1 through 5 dimensions, got 6"
    );
    assert_eq!(
        text(2, "sub", "row"),
        "unsupported TMA reduction operation `sub`"
    );
    assert_eq!(
        text(2, "add", "im2col"),
        "TMA reduction im2col requires at least 3 dimensions"
    );
    assert_eq!(
        text(5, "add", "row"),
        "unsupported TMA reduction load mode `row`"
    );
    for reduction in ["add", "and", "dec", "inc", "max", "min", "or", "xor"] {
        assert!(reduce_inline_asm(5, reduction, "im2col").is_ok());
    }
}

#[test]
fn prefetch_templates_are_exact() {
    assert_eq!(
        prefetch_tile_inline_asm(4, true, true),
        (
            "cp.async.bulk.prefetch.tensor.2d.L2.global.tile::gather4.L2::cache_hint [$0, {$1, $2, $3, $4}], $5;".into(),
            "l,r,r,r,r,l,~{memory}".into(),
        )
    );
    assert_eq!(
        prefetch_tile_inline_asm(3, false, false),
        (
            "cp.async.bulk.prefetch.tensor.3d.L2.global.tile [$0, {$1, $2, $3}];".into(),
            "l,r,r,r,~{memory}".into(),
        )
    );
}

#[test]
fn g2s_plans_are_exact() {
    let (first, symbol, arguments) =
        call(convert_g2s(&shape(6, 0), IntrinsicBackend::LlvmNvptx, 1, true).unwrap());
    assert_eq!(first, Some(1));
    assert_eq!(symbol, "llvm_nvvm_cp_async_bulk_tensor_g2s_tile_1d");
    assert_eq!(
        arguments,
        [
            pointer(7, Arg::Cluster(0)),
            pointer(3, Arg::Shared(1)),
            pointer(0, Arg::Operand(2)),
            integer(32, Arg::Operand(3)),
            integer(16, Arg::Operand(4)),
            integer(64, Arg::Operand(5)),
            integer(1, Arg::I1(true)),
            integer(1, Arg::I1(false)),
            integer(32, Arg::I32(0)),
        ]
    );

    let mut op = shape(7, 0);
    op.operand_spaces[0] = Some(7);
    let (first, kind, result, inputs, template, constraints) =
        inline(convert_g2s_multicast_cg2(&op, IntrinsicBackend::LibNvvm).unwrap());
    assert_eq!(first, Some(1));
    assert_eq!(kind, AsmKind::Convergent);
    assert_eq!(result, None);
    assert_eq!(
        inputs,
        [
            Arg::InSpace {
                operand: 0,
                space: 0
            },
            Arg::Shared(1),
            Arg::Operand(2),
            Arg::Operand(3),
            Arg::Operand(4),
            Arg::Operand(5),
        ]
    );
    assert_eq!((template, constraints), g2s_inline_asm(2, true, 2));

    let (_, _, _, inputs, _, _) =
        inline(convert_g2s(&shape(7, 0), IntrinsicBackend::LibNvvm, 2, false).unwrap());
    assert_eq!(
        inputs,
        [
            Arg::Operand(0),
            Arg::Shared(1),
            Arg::Operand(2),
            Arg::Operand(3),
            Arg::Operand(4),
        ]
    );
}

#[test]
fn g2s_refusals_are_exact() {
    for backend in BACKENDS {
        assert_eq!(
            message(convert_g2s(&shape(4, 0), backend, 2, false)),
            "TMA G2S 2D requires 7 operands, got 4"
        );
    }
    let mut op = shape(6, 0);
    op.operand_spaces[0] = None;
    assert_eq!(
        message(convert_g2s(&op, IntrinsicBackend::LibNvvm, 1, false)),
        "TMA G2S destination must be a pointer"
    );
    assert!(convert_g2s(&op, IntrinsicBackend::LlvmNvptx, 1, false).is_ok());
}

#[test]
fn s2g_plans_are_exact() {
    let (first, symbol, arguments) =
        call(convert_s2g(&shape(12, 0), IntrinsicBackend::LlvmNvptx, 10).unwrap());
    assert_eq!(first, None);
    assert_eq!(symbol, "llvm_nvvm_cp_async_bulk_tensor_s2g_tile_10d");
    assert_eq!(arguments.len(), 14);
    assert_eq!(arguments[0], pointer(3, Arg::Shared(0)));
    assert_eq!(arguments[1], pointer(0, Arg::Operand(1)));
    assert_eq!(arguments[11], integer(32, Arg::Operand(11)));
    assert_eq!(arguments[12], integer(64, Arg::I64(0)));
    assert_eq!(arguments[13], integer(1, Arg::I1(false)));

    let (_, kind, _, inputs, template, constraints) =
        inline(convert_s2g(&shape(3, 0), IntrinsicBackend::LibNvvm, 1).unwrap());
    assert_eq!(kind, AsmKind::Convergent);
    assert_eq!(inputs, [Arg::Shared(0), Arg::Operand(1), Arg::Operand(2)]);
    assert_eq!((template, constraints), s2g_inline_asm(1));

    for backend in BACKENDS {
        assert_eq!(
            message(convert_s2g(&shape(2, 0), backend, 3)),
            "TMA S2G 3D requires 5 operands, got 2"
        );
    }
}

#[test]
fn reduction_plans_are_exact() {
    let config = ReduceConfig::new(1, "max", "tile", "reduce_max_tile_1d");
    let (_, symbol, arguments) =
        call(convert_reduce_s2g(&shape(3, 0), IntrinsicBackend::LlvmNvptx, config).unwrap());
    assert_eq!(symbol, "reduce_max_tile_1d");
    assert_eq!(
        arguments,
        [
            pointer(3, Arg::Shared(0)),
            pointer(0, Arg::Operand(1)),
            integer(32, Arg::Operand(2)),
            integer(64, Arg::I64(0)),
            integer(1, Arg::I1(false)),
        ]
    );
    let (_, kind, _, _, template, constraints) =
        inline(convert_reduce_s2g(&shape(3, 0), IntrinsicBackend::LibNvvm, config).unwrap());
    assert_eq!(kind, AsmKind::Convergent);
    assert_eq!(
        (template, constraints),
        reduce_inline_asm(1, "max", "tile").unwrap()
    );
    for backend in BACKENDS {
        for op in [shape(4, 0), shape(3, 1)] {
            assert_eq!(
                message(convert_reduce_s2g(&op, backend, config)),
                "TMA reduction 1D requires 3 operand(s) and no results"
            );
        }
        assert_eq!(
            message(convert_reduce_s2g(
                &shape(3, 0),
                backend,
                ReduceConfig::new(1, "max", "im2col", "x")
            )),
            "TMA reduction im2col requires at least 3 dimensions"
        );
    }
}

#[test]
fn prefetch_plans_are_exact() {
    let (_, symbol, arguments) = call(
        convert_prefetch_tensormap(&shape(1, 0), IntrinsicBackend::LlvmNvptx, "prefetch").unwrap(),
    );
    assert_eq!(symbol, "prefetch");
    assert_eq!(arguments, [pointer(0, Arg::Operand(0))]);
    let (_, kind, _, inputs, template, constraints) = inline(
        convert_prefetch_tensormap(&shape(1, 0), IntrinsicBackend::LibNvvm, "prefetch").unwrap(),
    );
    assert_eq!(kind, AsmKind::SideEffect);
    assert_eq!(inputs, [Arg::Operand(0)]);
    assert_eq!(template, "prefetch.tensormap [$0];");
    assert_eq!(constraints, "l,~{memory}");

    let config = PrefetchTileConfig::new(2, false, true, "tile_2d");
    let (_, symbol, arguments) =
        call(convert_prefetch_tile(&shape(4, 0), IntrinsicBackend::LlvmNvptx, config).unwrap());
    assert_eq!(symbol, "tile_2d");
    assert_eq!(
        arguments,
        [
            pointer(0, Arg::Operand(0)),
            integer(32, Arg::Operand(1)),
            integer(32, Arg::Operand(2)),
            integer(64, Arg::Operand(3)),
            integer(1, Arg::I1(true)),
        ]
    );
    let unhinted = PrefetchTileConfig::new(1, false, false, "tile_1d");
    let (_, _, arguments) =
        call(convert_prefetch_tile(&shape(2, 0), IntrinsicBackend::LlvmNvptx, unhinted).unwrap());
    assert_eq!(arguments[2], integer(64, Arg::I64(0)));
    assert_eq!(arguments[3], integer(1, Arg::I1(false)));
    let (_, kind, _, inputs, template, constraints) =
        inline(convert_prefetch_tile(&shape(4, 0), IntrinsicBackend::LibNvvm, config).unwrap());
    assert_eq!(kind, AsmKind::Convergent);
    assert_eq!(inputs.len(), 4);
    assert_eq!(
        (template, constraints),
        prefetch_tile_inline_asm(2, false, true)
    );
    for backend in BACKENDS {
        assert_eq!(
            message(convert_prefetch_tensormap(&shape(2, 0), backend, "x")),
            "prefetch.tensormap requires one operand and no results"
        );
        assert_eq!(
            message(convert_prefetch_tile(&shape(3, 0), backend, config)),
            "TMA tile prefetch requires 4 operand(s) and no results"
        );
    }
}

#[test]
fn bulk_templates_are_exact() {
    assert_eq!(
        bulk_inline_asm(BulkDirection::GlobalToCluster, true, true, false),
        (
            "{ .reg .u64 %bulk_dst; cvta.to.shared::cluster.u64 %bulk_dst, $0; .reg .u64 %bulk_src; cvta.to.global.u64 %bulk_src, $1; .reg .u64 %bulk_mbar; cvta.to.shared.u64 %bulk_mbar, $3; cp.async.bulk.shared::cluster.global.mbarrier::complete_tx::bytes.multicast::cluster.L2::cache_hint [%bulk_dst], [%bulk_src], $2, [%bulk_mbar], $4, $5; }".into(),
            "l,l,r,l,h,l,~{memory}".into(),
        )
    );
    assert_eq!(
        bulk_inline_asm(BulkDirection::SharedToGlobal, false, true, true),
        (
            "{ .reg .u64 %bulk_dst; cvta.to.global.u64 %bulk_dst, $0; .reg .u64 %bulk_src; cvta.to.shared.u64 %bulk_src, $1; cp.async.bulk.global.shared::cta.bulk_group.L2::cache_hint.cp_mask [%bulk_dst], [%bulk_src], $2, $3, $4; }".into(),
            "l,l,r,l,h,~{memory}".into(),
        )
    );
    assert_eq!(
        bulk_inline_asm(BulkDirection::PrefetchL2, false, false, false),
        (
            "{ .reg .u64 %bulk_src; cvta.to.global.u64 %bulk_src, $0; cp.async.bulk.prefetch.L2.global [%bulk_src], $1; }".into(),
            "l,r,~{memory}".into(),
        )
    );
}

#[test]
fn bulk_plans_are_exact() {
    let config = BulkConfig::new("g2s_cluster", false, true, false, "bulk_g2s");
    let (_, symbol, arguments) =
        call(convert_bulk(&shape(5, 0), IntrinsicBackend::LlvmNvptx, config).unwrap());
    assert_eq!(symbol, "bulk_g2s");
    assert_eq!(
        arguments,
        [
            pointer(7, Arg::Cluster(0)),
            pointer(3, Arg::Shared(3)),
            pointer(
                1,
                Arg::InSpace {
                    operand: 1,
                    space: 1
                }
            ),
            integer(32, Arg::Operand(2)),
            integer(16, Arg::I16(0)),
            integer(64, Arg::Operand(4)),
            integer(1, Arg::I1(false)),
            integer(1, Arg::I1(true)),
        ]
    );
    let config = BulkConfig::new("s2g", false, false, true, "bulk_s2g");
    let mut op = shape(4, 0);
    op.operand_spaces[0] = Some(1);
    let (_, _, arguments) =
        call(convert_bulk(&op, IntrinsicBackend::LlvmNvptx, config).unwrap());
    assert_eq!(
        arguments,
        [
            pointer(1, Arg::Operand(0)),
            pointer(3, Arg::Shared(1)),
            integer(32, Arg::Operand(2)),
            integer(64, Arg::I64(0)),
            integer(1, Arg::I1(false)),
            integer(16, Arg::Operand(3)),
        ]
    );
    let config = BulkConfig::new("cta_to_cluster", false, false, false, "dsmem");
    let (_, _, arguments) =
        call(convert_bulk(&shape(4, 0), IntrinsicBackend::LlvmNvptx, config).unwrap());
    assert_eq!(
        arguments,
        [
            pointer(7, Arg::Cluster(0)),
            pointer(3, Arg::Shared(3)),
            pointer(3, Arg::Shared(1)),
            integer(32, Arg::Operand(2)),
        ]
    );
    let config = BulkConfig::new("prefetch", false, false, false, "bulk_prefetch");
    let (_, kind, _, inputs, template, constraints) =
        inline(convert_bulk(&shape(2, 0), IntrinsicBackend::LibNvvm, config).unwrap());
    assert_eq!(kind, AsmKind::Convergent);
    assert_eq!(inputs, [Arg::Operand(0), Arg::Operand(1)]);
    assert_eq!(
        (template, constraints),
        bulk_inline_asm(BulkDirection::PrefetchL2, false, false, false)
    );
    for backend in BACKENDS {
        assert_eq!(
            message(convert_bulk(&shape(3, 0), backend, config)),
            "cp.async.bulk requires 2 operand(s) and no results"
        );
        assert_eq!(
            message(convert_bulk(
                &shape(3, 0),
                backend,
                BulkConfig::new("sideways", false, false, false, "x")
            )),
            "unsupported bulk-copy direction `sideways`"
        );
    }
    assert_eq!(
        BulkDirection::parse("g2s_cta"),
        Ok(BulkDirection::GlobalToCta)
    );
}

#[test]
fn tensormap_plans_are_exact() {
    let (_, kind, _, inputs, template, constraints) = inline(
        convert_tensormap_replace(&shape(3, 0), "box_dim", "u32", true, false).unwrap(),
    );
    assert_eq!(kind, AsmKind::SideEffect);
    assert_eq!(inputs.len(), 3);
    assert_eq!(
        template,
        "tensormap.replace.tile.box_dim.global.b1024.b32 [$0], $1, $2;"
    );
    assert_eq!(constraints, "l,n,r,~{memory}");
    for (value_kind, immediate, expected) in [
        ("address", false, "l,l,~{memory}"),
        ("u64", false, "l,l,~{memory}"),
        ("u64", true, "l,n,~{memory}"),
    ] {
        let (_, _, _, _, template, constraints) = inline(
            convert_tensormap_replace(&shape(2, 0), "global_address", value_kind, false, immediate)
                .unwrap(),
        );
        assert_eq!(
            template,
            "tensormap.replace.tile.global_address.global.b1024.b64 [$0], $1;"
        );
        assert_eq!(constraints, expected);
    }
    assert_eq!(
        message(convert_tensormap_replace(&shape(2, 0), "rank", "u32", true, true)),
        "tensormap.replace rank requires 3 operand(s) and no results"
    );
    assert_eq!(
        message(convert_tensormap_replace(&shape(2, 0), "rank", "f32", false, true)),
        "unsupported tensor-map replacement value kind"
    );

    let (_, symbol, arguments) = call(
        convert_tensormap_fence(&shape(1, 0), IntrinsicBackend::LlvmNvptx, "fence", true, "gpu")
            .unwrap(),
    );
    assert_eq!(symbol, "fence");
    assert_eq!(
        arguments,
        [pointer(0, Arg::Operand(0)), integer(32, Arg::I32(128))]
    );
    let (_, _, _, _, template, constraints) = inline(
        convert_tensormap_fence(&shape(1, 0), IntrinsicBackend::LibNvvm, "fence", true, "gpu")
            .unwrap(),
    );
    assert_eq!(
        template,
        "fence.proxy.tensormap::generic.acquire.gpu [$0], 128;"
    );
    assert_eq!(constraints, "l,~{memory}");
    let (_, _, _, inputs, template, constraints) = inline(
        convert_tensormap_fence(&shape(0, 0), IntrinsicBackend::LibNvvm, "fence", false, "sys")
            .unwrap(),
    );
    assert!(inputs.is_empty());
    assert_eq!(template, "fence.proxy.tensormap::generic.release.sys;");
    assert_eq!(constraints, "~{memory}");
    for backend in BACKENDS {
        assert_eq!(
            message(convert_tensormap_fence(&shape(1, 0), backend, "fence", false, "cta")),
            "tensor-map cta proxy fence requires 0 operand(s) and no results"
        );
    }
}

#[test]
fn control_plans_are_exact() {
    for (operation, operands, expected, constraint) in [
        ("commit_group", 0, "cp.async.bulk.commit_group;", "~{memory}"),
        ("wait_group", 1, "cp.async.bulk.wait_group $0;", "n,~{memory}"),
        (
            "wait_group_read",
            1,
            "cp.async.bulk.wait_group.read $0;",
            "n,~{memory}",
        ),
    ] {
        let op = shape(operands, 0);
        let (_, kind, _, inputs, template, constraints) =
            inline(convert_control(&op, IntrinsicBackend::LibNvvm, operation, "x").unwrap());
        assert_eq!(kind, AsmKind::SideEffect);
        assert_eq!(inputs.len(), operands);
        assert_eq!(template, expected);
        assert_eq!(constraints, constraint);
        let (_, symbol, arguments) =
            call(convert_control(&op, IntrinsicBackend::LlvmNvptx, operation, "x").unwrap());
        assert_eq!(symbol, "x");
        assert_eq!(arguments.len(), operands);
        if operands == 1 {
            assert_eq!(arguments[0], integer(32, Arg::Operand(0)));
        }
    }
    for backend in BACKENDS {
        assert_eq!(
            message(convert_control(&shape(0, 0), backend, "abort", "x")),
            "unsupported TMA control `abort`"
        );
        assert_eq!(
            message(convert_control(&shape(0, 0), backend, "wait_group", "x")),
            "TMA wait_group requires 1 operand(s) and no results"
        );
    }
}

#[test]
fn policy_creation_is_exact() {
    let instruction = "createpolicy.fractional.L2::evict_last.b64";
    let (first, kind, result, inputs, template, constraints) =
        inline(convert_generated_cache_policy(&shape(1, 1), instruction).unwrap());
    assert_eq!(first, None);
    assert_eq!(kind, AsmKind::Pure);
    assert_eq!(result, Some(64));
    assert_eq!(inputs, [Arg::Operand(0)]);
    assert_eq!(template, "createpolicy.fractional.L2::evict_last.b64 $0, $1;");
    assert_eq!(constraints, "=l,f");
    assert_eq!(
        message(convert_generated_cache_policy(&shape(2, 1), instruction)),
        "generated createpolicy operation requires 1 operand, got 2"
    );
}

#[test]
fn addresses_are_cast_only_where_needed() {
    let op = OpShape {
        operand_spaces: vec![Some(1), Some(0), None],
        result_count: 0,
    };
    assert_eq!(cast_to_addrspace(&op, 0, 1), Arg::Operand(0));
    assert_eq!(
        cast_to_addrspace(&op, 1, 1),
        Arg::InSpace {
            operand: 1,
            space: 1
        }
    );
    assert_eq!(cast_to_addrspace(&op, 2, 0), Arg::Operand(2));
    assert_eq!(cast_to_addrspace(&op, 0, 3), Arg::Shared(0));
    assert_eq!(cast_to_addrspace(&op, 0, 7), Arg::Cluster(0));
}

#[test]
fn unroll_requests_cross_the_dialects() {
    let request = LlvmLoopUnrollAttr {
        factor: 4,
        group: 2,
    };
    let carried = LoopUnrollAttr {
        factor: 4,
        group: 2,
    };
    let earlier = LoopUnrollAttr {
        factor: 1,
        group: 0,
    };
    assert_eq!(preserve_loop_metadata(Some(request), None), Some(carried));
    assert_eq!(
        preserve_loop_metadata(Some(request), Some(earlier)),
        Some(carried)
    );
    assert_eq!(preserve_loop_metadata(None, Some(earlier)), Some(earlier));
    assert_eq!(preserve_loop_metadata(None, None), None);
}

#[test]
fn every_inline_plan_has_one_constraint_per_value() {
    let plans = vec![
        convert_g2s(&shape(8, 0), IntrinsicBackend::LibNvvm, 3, true).unwrap(),
        convert_s2g(&shape(6, 0), IntrinsicBackend::LibNvvm, 4).unwrap(),
        convert_bulk(
            &shape(5, 0),
            IntrinsicBackend::LibNvvm,
            BulkConfig::new("g2s_cta", false, true, false, "x"),
        )
        .unwrap(),
        convert_control(&shape(1, 0), IntrinsicBackend::LibNvvm, "wait_group", "x").unwrap(),
    ];
    for plan in plans {
        let (_, _, _, inputs, template, constraints) = inline(plan);
        let list: Vec<&str> = constraints.split(',').collect();
        assert_eq!(list.len(), inputs.len() + 1, "{template}");
        assert_eq!(list[inputs.len()], "~{memory}");
        assert!(!template.contains(&format!("${}", inputs.len())));
    }
}
