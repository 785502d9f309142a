//! Tensor-memory-access operations of Hopper and newer GPUs.

use crate::lower::ptx::{
    g2s_constraints, g2s_inline_asm, g2s_template, prefetch_tile_constraints,
    prefetch_tile_inline_asm, prefetch_tile_template, ptx_load_mode, reduce_inline_asm,
    reduce_refusal, reduce_template, s2g_constraints, s2g_inline_asm, s2g_template,
};
use crate::lower::symbol::{identifier, identifier_extends};
use crate::lower::{
    count_if, integer_operands, number_if, operands_between, outcome, push_arg,
    push_integer_operands, push_operands, Arg, AsmKind, Emission, EmissionView, IntrinsicBackend,
    Lowering, LoweringError, LoweringView, OpShape, TypedArg, ValueType,
};
use crate::text::{
    decimal, decimal_text, join, joined, push_text, push_text_if, same_text, text_if, texts,
};
use vstd::prelude::*;

verus! {

/// The symbol of the global-to-shared tensor copy.
pub open spec fn g2s_symbol(dims: nat) -> Seq<char> {
    "llvm_nvvm_cp_async_bulk_tensor_g2s_tile_"@ + decimal(dims) + "d"@
}

/// The symbol of the shared-to-global tensor copy.
pub open spec fn s2g_symbol(dims: nat) -> Seq<char> {
    "llvm_nvvm_cp_async_bulk_tensor_s2g_tile_"@ + decimal(dims) + "d"@
}

/// What [`convert_g2s_impl`] makes of an operation.
pub open spec fn g2s_outcome(
    spaces: Seq<Option<u32>>,
    backend: IntrinsicBackend,
    dims: nat,
    multicast: bool,
    cta_group: i32,
) -> Result<LoweringView, Seq<char>> {
    if spaces.len() != dims + 5 {
        Err(
            "TMA G2S "@ + decimal(dims) + "D requires "@ + decimal(dims + 5) + " operands, got "@
                + decimal(spaces.len()),
        )
    } else if backend == IntrinsicBackend::LibNvvm {
        match spaces[0] {
            None => Err("TMA G2S destination must be a pointer"@),
            Some(space) => Ok(
                LoweringView {
                    first: Some(1),
                    emission: EmissionView::InlineAsm {
                        kind: AsmKind::Convergent,
                        result: None,
                        inputs: seq![
                            if space == 0 {
                                Arg::Operand(0)
                            } else {
                                Arg::InSpace { operand: 0, space: 0 }
                            },
                            Arg::Shared(1),
                        ] + operands_between(2, 3 + dims + count_if(multicast)),
                        template: g2s_template(dims, multicast, cta_group),
                        constraints: joined(g2s_constraints(dims, multicast), ","@),
                    },
                },
            ),
        }
    } else {
        Ok(
            LoweringView {
                first: Some(1),
                emission: EmissionView::Call {
                    symbol: g2s_symbol(dims),
                    arguments: seq![
                        TypedArg { ty: ValueType::Pointer(7), value: Arg::Cluster(0) },
                        TypedArg { ty: ValueType::Pointer(3), value: Arg::Shared(1) },
                        TypedArg { ty: ValueType::Pointer(0), value: Arg::Operand(2) },
                    ] + integer_operands(3, 3 + dims, 32) + seq![
                        TypedArg {
                            ty: ValueType::Integer(16),
                            value: Arg::Operand((3 + dims) as usize),
                        },
                        TypedArg {
                            ty: ValueType::Integer(64),
                            value: Arg::Operand((4 + dims) as usize),
                        },
                        TypedArg { ty: ValueType::Integer(1), value: Arg::I1(multicast) },
                        TypedArg { ty: ValueType::Integer(1), value: Arg::I1(false) },
                        TypedArg { ty: ValueType::Integer(32), value: Arg::I32(cta_group) },
                    ],
                },
            },
        )
    }
}

/// Plans a global-to-shared tensor copy.
///
/// The shared-cluster address space is no part of the legacy NVVM contract, so
/// there the generic address is converted in PTX. The barrier is converted
/// before the destination.
pub fn convert_g2s_impl(
    op: &OpShape,
    backend: IntrinsicBackend,
    dims: usize,
    multicast: bool,
    cta_group: i32,
) -> (r: Result<Lowering, LoweringError>)
    requires
        dims + 5 <= usize::MAX,
    ensures
        outcome(r) == g2s_outcome(op.operand_spaces@, backend, dims as nat, multicast, cta_group),
{
    let expected = 3 + dims + 2;
    if op.operand_spaces.len() != expected {
        return Err(
            LoweringError {
                message: "TMA G2S ".to_owned().concat(decimal_text(dims as u64).as_str()).concat(
                    "D requires ",
                ).concat(decimal_text(expected as u64).as_str()).concat(" operands, got ").concat(
                    decimal_text(op.operand_spaces.len() as u64).as_str(),
                ),
            },
        );
    }
    if backend == IntrinsicBackend::LibNvvm {
        let destination = match op.operand_spaces[0] {
            None => {
                return Err(
                    LoweringError { message: "TMA G2S destination must be a pointer".to_owned() },
                );
            },
            Some(space) => if space == 0 {
                Arg::Operand(0)
            } else {
                Arg::InSpace { operand: 0, space: 0 }
            },
        };
        let mut inputs: Vec<Arg> = vec![destination, Arg::Shared(1)];
        push_operands(&mut inputs, 2, 3 + dims + number_if(multicast));
        let (template, constraints) = g2s_inline_asm(dims, multicast, cta_group);
        return Ok(
            Lowering {
                first: Some(1),
                emission: Emission::InlineAsm {
                    kind: AsmKind::Convergent,
                    result: None,
                    inputs,
                    template,
                    constraints,
                },
            },
        );
    }
    let name = "llvm_nvvm_cp_async_bulk_tensor_g2s_tile_".to_owned().concat(
        decimal_text(dims as u64).as_str(),
    ).concat("d");
    proof {
        reveal_strlit("llvm_nvvm_cp_async_bulk_tensor_g2s_tile_");
        reveal_strlit("d");
        identifier_extends("llvm_nvvm_cp_async_bulk_tensor_g2s_tile_"@, dims as nat, "d"@);
    }
    let symbol = identifier(name).unwrap();
    let mut arguments: Vec<TypedArg> = Vec::new();
    push_arg(&mut arguments, ValueType::Pointer(7), Arg::Cluster(0));
    push_arg(&mut arguments, ValueType::Pointer(3), Arg::Shared(1));
    push_arg(&mut arguments, ValueType::Pointer(0), Arg::Operand(2));
    push_integer_operands(&mut arguments, 3, 3 + dims, 32);
    push_arg(&mut arguments, ValueType::Integer(16), Arg::Operand(3 + dims));
    push_arg(&mut arguments, ValueType::Integer(64), Arg::Operand(4 + dims));
    push_arg(&mut arguments, ValueType::Integer(1), Arg::I1(multicast));
    push_arg(&mut arguments, ValueType::Integer(1), Arg::I1(false));
    push_arg(&mut arguments, ValueType::Integer(32), Arg::I32(cta_group));
    let plan = Lowering { first: Some(1), emission: Emission::Call { symbol, arguments } };
    assert(arguments@ =~= (g2s_outcome(
        op.operand_spaces@,
        backend,
        dims as nat,
        multicast,
        cta_group,
    )->Ok_0).emission->arguments);
    Ok(plan)
}

/// Plans a global-to-shared tensor copy within one CTA group.
pub fn convert_g2s(op: &OpShape, backend: IntrinsicBackend, dims: usize, multicast: bool) -> (r:
    Result<Lowering, LoweringError>)
    requires
        dims + 5 <= usize::MAX,
    ensures
        outcome(r) == g2s_outcome(op.operand_spaces@, backend, dims as nat, multicast, 0),
{
    convert_g2s_impl(op, backend, dims, multicast, 0)
}

/// Plans a two-dimensional multicast copy with `cta_group::2`.
pub fn convert_g2s_multicast_cg2(op: &OpShape, backend: IntrinsicBackend) -> (r: Result<
    Lowering,
    LoweringError,
>)
    ensures
        outcome(r) == g2s_outcome(op.operand_spaces@, backend, 2, true, 2),
{
    convert_g2s_impl(op, backend, 2, true, 2)
}

/// The inputs of the shared-to-global inline PTX.
pub open spec fn s2g_inputs(dims: nat) -> Seq<Arg> {
    seq![Arg::Shared(0)] + operands_between(1, 2 + dims)
}

/// The arguments of the typed shared-to-global intrinsics: the source, the
/// tensor map, the coordinates, and an unused cache hint.
pub open spec fn s2g_arguments(dims: nat) -> Seq<TypedArg> {
    seq![
        TypedArg { ty: ValueType::Pointer(3), value: Arg::Shared(0) },
        TypedArg { ty: ValueType::Pointer(0), value: Arg::Operand(1) },
    ] + integer_operands(2, 2 + dims, 32) + seq![
        TypedArg { ty: ValueType::Integer(64), value: Arg::I64(0) },
        TypedArg { ty: ValueType::Integer(1), value: Arg::I1(false) },
    ]
}

fn s2g_input_list(dims: usize) -> (r: Vec<Arg>)
    requires
        dims + 2 <= usize::MAX,
    ensures
        r@ == s2g_inputs(dims as nat),
{
    let mut inputs: Vec<Arg> = vec![Arg::Shared(0)];
    push_operands(&mut inputs, 1, 2 + dims);
    inputs
}

fn s2g_argument_list(dims: usize) -> (r: Vec<TypedArg>)
    requires
        dims + 2 <= usize::MAX,
    ensures
        r@ == s2g_arguments(dims as nat),
{
    let mut arguments: Vec<TypedArg> = Vec::new();
    push_arg(&mut arguments, ValueType::Pointer(3), Arg::Shared(0));
    push_arg(&mut arguments, ValueType::Pointer(0), Arg::Operand(1));
    push_integer_operands(&mut arguments, 2, 2 + dims, 32);
    push_arg(&mut arguments, ValueType::Integer(64), Arg::I64(0));
    push_arg(&mut arguments, ValueType::Integer(1), Arg::I1(false));
    assert(arguments@ =~= s2g_arguments(dims as nat));
    arguments
}

/// What [`convert_s2g`] makes of an operation.
pub open spec fn s2g_outcome(
    spaces: Seq<Option<u32>>,
    backend: IntrinsicBackend,
    dims: nat,
) -> Result<LoweringView, Seq<char>> {
    if spaces.len() != dims + 2 {
        Err(
            "TMA S2G "@ + decimal(dims) + "D requires "@ + decimal(dims + 2) + " operands, got "@
                + decimal(spaces.len()),
        )
    } else if backend == IntrinsicBackend::LibNvvm {
        Ok(
            LoweringView {
                first: None,
                emission: EmissionView::InlineAsm {
                    kind: AsmKind::Convergent,
                    result: None,
                    inputs: s2g_inputs(dims),
                    template: s2g_template(dims),
                    constraints: joined(s2g_constraints(dims), ","@),
                },
            },
        )
    } else {
        Ok(
            LoweringView {
                first: None,
                emission: EmissionView::Call {
                    symbol: s2g_symbol(dims),
                    arguments: s2g_arguments(dims),
                },
            },
        )
    }
}

/// Plans a shared-to-global tensor copy.
pub fn convert_s2g(op: &OpShape, backend: IntrinsicBackend, dims: usize) -> (r: Result<
    Lowering,
    LoweringError,
>)
    requires
        dims + 2 <= usize::MAX,
    ensures
        outcome(r) == s2g_outcome(op.operand_spaces@, backend, dims as nat),
{
    let expected = 2 + dims;
    if op.operand_spaces.len() != expected {
        return Err(
            LoweringError {
                message: "TMA S2G ".to_owned().concat(decimal_text(dims as u64).as_str()).concat(
                    "D requires ",
                ).concat(decimal_text(expected as u64).as_str()).concat(" operands, got ").concat(
                    decimal_text(op.operand_spaces.len() as u64).as_str(),
                ),
            },
        );
    }
    if backend == IntrinsicBackend::LibNvvm {
        let (template, constraints) = s2g_inline_asm(dims);
        return Ok(
            Lowering {
                first: None,
                emission: Emission::InlineAsm {
                    kind: AsmKind::Convergent,
                    result: None,
                    inputs: s2g_input_list(dims),
                    template,
                    constraints,
                },
            },
        );
    }
    let name = "llvm_nvvm_cp_async_bulk_tensor_s2g_tile_".to_owned().concat(
        decimal_text(dims as u64).as_str(),
    ).concat("d");
    proof {
        reveal_strlit("llvm_nvvm_cp_async_bulk_tensor_s2g_tile_");
        reveal_strlit("d");
        identifier_extends("llvm_nvvm_cp_async_bulk_tensor_s2g_tile_"@, dims as nat, "d"@);
    }
    let symbol = identifier(name).unwrap();
    Ok(
        Lowering {
            first: None,
            emission: Emission::Call { symbol, arguments: s2g_argument_list(dims) },
        },
    )
}

/// One tensor reduction: its rank, its operation, its load mode and the typed
/// intrinsic that performs it.
#[derive(Clone, Copy, Debug)]
pub struct ReduceConfig<'a> {
    pub dims: usize,
    pub reduction: &'a str,
    pub load_mode: &'a str,
    pub intrinsic_name: &'a str,
}

impl<'a> ReduceConfig<'a> {
    pub fn new(
        dims: usize,
        reduction: &'a str,
        load_mode: &'a str,
        intrinsic_name: &'a str,
    ) -> (r: Self)
        ensures
            r == (ReduceConfig { dims, reduction, load_mode, intrinsic_name }),
    {
        ReduceConfig { dims, reduction, load_mode, intrinsic_name }
    }
}

/// What [`convert_reduce_s2g`] makes of an operation.
pub open spec fn reduce_outcome(
    spaces: Seq<Option<u32>>,
    result_count: usize,
    backend: IntrinsicBackend,
    config: ReduceConfig<'_>,
) -> Result<LoweringView, Seq<char>> {
    let dims = config.dims as nat;
    if spaces.len() != dims + 2 || result_count != 0 {
        Err(
            "TMA reduction "@ + decimal(dims) + "D requires "@ + decimal(dims + 2)
                + " operand(s) and no results"@,
        )
    } else {
        match reduce_refusal(dims, config.reduction@, config.load_mode@) {
            Some(refusal) => Err(refusal),
            None => if backend == IntrinsicBackend::LlvmNvptx {
                Ok(
                    LoweringView {
                        first: None,
                        emission: EmissionView::Call {
                            symbol: config.intrinsic_name@,
                            arguments: s2g_arguments(dims),
                        },
                    },
                )
            } else {
                Ok(
                    LoweringView {
                        first: None,
                        emission: EmissionView::InlineAsm {
                            kind: AsmKind::Convergent,
                            result: None,
                            inputs: s2g_inputs(dims),
                            template: reduce_template(
                                dims,
                                config.reduction@,
                                ptx_load_mode(dims, config.load_mode@)->0,
                            ),
                            constraints: joined(s2g_constraints(dims), ","@),
                        },
                    },
                )
            },
        }
    }
}

/// Plans one shared-to-global tensor reduction.
///
/// The operation and its load mode are checked for both backends.
pub fn convert_reduce_s2g(
    op: &OpShape,
    backend: IntrinsicBackend,
    config: ReduceConfig<'_>,
) -> (r: Result<Lowering, LoweringError>)
    requires
        config.dims + 2 <= usize::MAX,
    ensures
        outcome(r) == reduce_outcome(op.operand_spaces@, op.result_count, backend, config),
{
    let dims = config.dims;
    let expected = 2 + dims;
    if op.operand_spaces.len() != expected || op.result_count != 0 {
        return Err(
            LoweringError {
                message: "TMA reduction ".to_owned().concat(
                    decimal_text(dims as u64).as_str(),
                ).concat("D requires ").concat(decimal_text(expected as u64).as_str()).concat(
                    " operand(s) and no results",
                ),
            },
        );
    }
    let (template, constraints) = match reduce_inline_asm(
        dims,
        config.reduction,
        config.load_mode,
    ) {
        Ok(texts) => texts,
        Err(error) => {
            return Err(error);
        },
    };
    match backend {
        IntrinsicBackend::LlvmNvptx => Ok(
            Lowering {
                first: None,
                emission: Emission::Call {
                    symbol: config.intrinsic_name.to_owned(),
                    arguments: s2g_argument_list(dims),
                },
            },
        ),
        IntrinsicBackend::LibNvvm => Ok(
            Lowering {
                first: None,
                emission: Emission::InlineAsm {
                    kind: AsmKind::Convergent,
                    result: None,
                    inputs: s2g_input_list(dims),
                    template,
                    constraints,
                },
            },
        ),
    }
}

/// What [`convert_prefetch_tensormap`] makes of an operation.
pub open spec fn prefetch_tensormap_outcome(
    operand_count: nat,
    result_count: usize,
    backend: IntrinsicBackend,
    intrinsic_name: Seq<char>,
) -> Result<LoweringView, Seq<char>> {
    if operand_count != 1 || result_count != 0 {
        Err("prefetch.tensormap requires one operand and no results"@)
    } else if backend == IntrinsicBackend::LlvmNvptx {
        Ok(
            LoweringView {
                first: None,
                emission: EmissionView::Call {
                    symbol: intrinsic_name,
                    arguments: seq![
                        TypedArg { ty: ValueType::Pointer(0), value: Arg::Operand(0) },
                    ],
                },
            },
        )
    } else {
        Ok(
            LoweringView {
                first: None,
                emission: EmissionView::InlineAsm {
                    kind: AsmKind::SideEffect,
                    result: None,
                    inputs: seq![Arg::Operand(0)],
                    template: "prefetch.tensormap [$0];"@,
                    constraints: "l,~{memory}"@,
                },
            },
        )
    }
}

/// Plans the prefetch of a tensor-map descriptor.
pub fn convert_prefetch_tensormap(
    op: &OpShape,
    backend: IntrinsicBackend,
    intrinsic_name: &str,
) -> (r: Result<Lowering, LoweringError>)
    ensures
        outcome(r) == prefetch_tensormap_outcome(
            op.operand_spaces@.len(),
            op.result_count,
            backend,
            intrinsic_name@,
        ),
{
    if op.operand_spaces.len() != 1 || op.result_count != 0 {
        return Err(
            LoweringError {
                message: "prefetch.tensormap requires one operand and no results".to_owned(),
            },
        );
    }
    match backend {
        IntrinsicBackend::LlvmNvptx => {
            let arguments: Vec<TypedArg> = vec![
                TypedArg { ty: ValueType::Pointer(0), value: Arg::Operand(0) },
            ];
            assert(arguments@ =~= seq![
                TypedArg { ty: ValueType::Pointer(0), value: Arg::Operand(0) },
            ]);
            Ok(
                Lowering {
                    first: None,
                    emission: Emission::Call { symbol: intrinsic_name.to_owned(), arguments },
                },
            )
        },
        IntrinsicBackend::LibNvvm => {
            let inputs: Vec<Arg> = vec![Arg::Operand(0)];
            assert(inputs@ =~= seq![Arg::Operand(0)]);
            Ok(
                Lowering {
                    first: None,
                    emission: Emission::InlineAsm {
                        kind: AsmKind::SideEffect,
                        result: None,
                        inputs,
                        template: "prefetch.tensormap [$0];".to_owned(),
                        constraints: "l,~{memory}".to_owned(),
                    },
                },
            )
        },
    }
}

/// One tensor tile prefetch.
#[derive(Clone, Copy, Debug)]
pub struct PrefetchTileConfig<'a> {
    pub coordinate_count: usize,
    pub gather4: bool,
    pub use_cache_hint: bool,
    pub intrinsic_name: &'a str,
}

impl<'a> PrefetchTileConfig<'a> {
    pub fn new(
        coordinate_count: usize,
        gather4: bool,
        use_cache_hint: bool,
        intrinsic_name: &'a str,
    ) -> (r: Self)
        ensures
            r == (PrefetchTileConfig { coordinate_count, gather4, use_cache_hint, intrinsic_name }),
    {
        PrefetchTileConfig { coordinate_count, gather4, use_cache_hint, intrinsic_name }
    }
}

/// The arguments of the typed tile prefetch: the tensor map, the coordinates,
/// and the cache hint with the flag that says whether it is used.
pub open spec fn prefetch_tile_arguments(
    coordinate_count: nat,
    use_cache_hint: bool,
) -> Seq<TypedArg> {
    seq![TypedArg { ty: ValueType::Pointer(0), value: Arg::Operand(0) }] + integer_operands(
        1,
        1 + coordinate_count,
        32,
    ) + seq![
        TypedArg {
            ty: ValueType::Integer(64),
            value: if use_cache_hint {
                Arg::Operand((1 + coordinate_count) as usize)
            } else {
                Arg::I64(0)
            },
        },
        TypedArg { ty: ValueType::Integer(1), value: Arg::I1(use_cache_hint) },
    ]
}

/// What [`convert_prefetch_tile`] makes of an operation.
pub open spec fn prefetch_tile_outcome(
    operand_count: nat,
    result_count: usize,
    backend: IntrinsicBackend,
    config: PrefetchTileConfig<'_>,
) -> Result<LoweringView, Seq<char>> {
    let coordinate_count = config.coordinate_count as nat;
    let expected = 1 + coordinate_count + count_if(config.use_cache_hint);
    if operand_count != expected || result_count != 0 {
        Err(
            "TMA tile prefetch requires "@ + decimal(expected)
                + " operand(s) and no results"@,
        )
    } else if backend == IntrinsicBackend::LlvmNvptx {
        Ok(
            LoweringView {
                first: None,
                emission: EmissionView::Call {
                    symbol: config.intrinsic_name@,
                    arguments: prefetch_tile_arguments(coordinate_count, config.use_cache_hint),
                },
            },
        )
    } else {
        Ok(
            LoweringView {
                first: None,
                emission: EmissionView::InlineAsm {
                    kind: AsmKind::Convergent,
                    result: None,
                    inputs: operands_between(0, operand_count),
                    template: prefetch_tile_template(
                        coordinate_count,
                        config.gather4,
                        config.use_cache_hint,
                    ),
                    constraints: joined(
                        prefetch_tile_constraints(coordinate_count, config.use_cache_hint),
                        ","@,
                    ),
                },
            },
        )
    }
}

/// Plans one dimensional or gather-four tensor tile prefetch.
pub fn convert_prefetch_tile(
    op: &OpShape,
    backend: IntrinsicBackend,
    config: PrefetchTileConfig<'_>,
) -> (r: Result<Lowering, LoweringError>)
    requires
        config.coordinate_count + 2 <= usize::MAX,
    ensures
        outcome(r) == prefetch_tile_outcome(
            op.operand_spaces@.len(),
            op.result_count,
            backend,
            config,
        ),
{
    let coordinate_count = config.coordinate_count;
    let use_cache_hint = config.use_cache_hint;
    let expected = 1 + coordinate_count + number_if(use_cache_hint);
    if op.operand_spaces.len() != expected || op.result_count != 0 {
        return Err(
            LoweringError {
                message: "TMA tile prefetch requires ".to_owned().concat(
                    decimal_text(expected as u64).as_str(),
                ).concat(" operand(s) and no results"),
            },
        );
    }
    match backend {
        IntrinsicBackend::LlvmNvptx => {
            let mut arguments: Vec<TypedArg> = Vec::new();
            push_arg(&mut arguments, ValueType::Pointer(0), Arg::Operand(0));
            push_integer_operands(&mut arguments, 1, 1 + coordinate_count, 32);
            push_arg(
                &mut arguments,
                ValueType::Integer(64),
                if use_cache_hint {
                    Arg::Operand(1 + coordinate_count)
                } else {
                    Arg::I64(0)
                },
            );
            push_arg(&mut arguments, ValueType::Integer(1), Arg::I1(use_cache_hint));
            assert(arguments@ =~= prefetch_tile_arguments(
                coordinate_count as nat,
                use_cache_hint,
            ));
            Ok(
                Lowering {
                    first: None,
                    emission: Emission::Call {
                        symbol: config.intrinsic_name.to_owned(),
                        arguments,
                    },
                },
            )
        },
        IntrinsicBackend::LibNvvm => {
            let mut inputs: Vec<Arg> = Vec::new();
            push_operands(&mut inputs, 0, expected);
            assert(inputs@ =~= operands_between(0, op.operand_spaces@.len()));
            let (template, constraints) = prefetch_tile_inline_asm(
                coordinate_count,
                config.gather4,
                use_cache_hint,
            );
            Ok(
                Lowering {
                    first: None,
                    emission: Emission::InlineAsm {
                        kind: AsmKind::Convergent,
                        result: None,
                        inputs,
                        template,
                        constraints,
                    },
                },
            )
        },
    }
}

/// The width of a tensor-map replacement value, if its kind is known.
pub open spec fn replacement_width(value_kind: Seq<char>) -> Option<nat> {
    if value_kind == "u32"@ {
        Some(32)
    } else if value_kind == "u64"@ || value_kind == "address"@ {
        Some(64)
    } else {
        None
    }
}

/// The template that replaces one field of a global tensor map.
pub open spec fn replace_template(field: Seq<char>, width: nat, ordinal: bool) -> Seq<char> {
    "tensormap.replace.tile."@ + field + ".global.b1024."@ + (if width == 64 {
        "b64"@
    } else {
        "b32"@
    }) + (if ordinal {
        " [$0], $1, $2;"@
    } else {
        " [$0], $1;"@
    })
}

/// The constraints of [`replace_template`].
pub open spec fn replace_constraints(
    width: nat,
    ordinal: bool,
    immediate: bool,
) -> Seq<Seq<char>> {
    seq!["l"@] + text_if(ordinal, "n"@) + seq![
        if immediate {
            "n"@
        } else if width == 64 {
            "l"@
        } else {
            "r"@
        },
    ] + seq!["~{memory}"@]
}

/// What [`convert_tensormap_replace`] makes of an operation.
pub open spec fn tensormap_replace_outcome(
    operand_count: nat,
    result_count: usize,
    field: Seq<char>,
    value_kind: Seq<char>,
    ordinal: bool,
    immediate: bool,
) -> Result<LoweringView, Seq<char>> {
    let expected: nat = if ordinal {
        3
    } else {
        2
    };
    if operand_count != expected || result_count != 0 {
        Err(
            "tensormap.replace "@ + field + " requires "@ + decimal(expected)
                + " operand(s) and no results"@,
        )
    } else {
        match replacement_width(value_kind) {
            None => Err("unsupported tensor-map replacement value kind"@),
            Some(width) => Ok(
                LoweringView {
                    first: None,
                    emission: EmissionView::InlineAsm {
                        kind: AsmKind::SideEffect,
                        result: None,
                        inputs: operands_between(0, operand_count),
                        template: replace_template(field, width, ordinal),
                        constraints: joined(replace_constraints(width, ordinal, immediate), ","@),
                    },
                },
            ),
        }
    }
}

/// Plans one member of the global tensor-map replacement family, which is
/// inline PTX for both backends.
pub fn convert_tensormap_replace(
    op: &OpShape,
    field: &str,
    value_kind: &str,
    ordinal: bool,
    immediate: bool,
) -> (r: Result<Lowering, LoweringError>)
    ensures
        outcome(r) == tensormap_replace_outcome(
            op.operand_spaces@.len(),
            op.result_count,
            field@,
            value_kind@,
            ordinal,
            immediate,
        ),
{
    let expected: usize = if ordinal {
        3
    } else {
        2
    };
    if op.operand_spaces.len() != expected || op.result_count != 0 {
        return Err(
            LoweringError {
                message: "tensormap.replace ".to_owned().concat(field).concat(" requires ").concat(
                    decimal_text(expected as u64).as_str(),
                ).concat(" operand(s) and no results"),
            },
        );
    }
    let wide = if same_text(value_kind, "u32") {
        false
    } else if same_text(value_kind, "u64") || same_text(value_kind, "address") {
        true
    } else {
        return Err(
            LoweringError {
                message: "unsupported tensor-map replacement value kind".to_owned(),
            },
        );
    };
    let ghost width: nat = replacement_width(value_kind@)->0;
    let template = "tensormap.replace.tile.".to_owned().concat(field).concat(
        ".global.b1024.",
    ).concat(
        if wide {
            "b64"
        } else {
            "b32"
        },
    ).concat(
        if ordinal {
            " [$0], $1, $2;"
        } else {
            " [$0], $1;"
        },
    );
    let mut constraints: Vec<String> = Vec::new();
    push_text(&mut constraints, "l");
    push_text_if(&mut constraints, ordinal, "n");
    push_text(
        &mut constraints,
        if immediate {
            "n"
        } else if wide {
            "l"
        } else {
            "r"
        },
    );
    push_text(&mut constraints, "~{memory}");
    assert(texts(constraints@) =~= replace_constraints(width, ordinal, immediate));
    let mut inputs: Vec<Arg> = Vec::new();
    push_operands(&mut inputs, 0, expected);
    assert(inputs@ =~= operands_between(0, op.operand_spaces@.len()));
    Ok(
        Lowering {
            first: None,
            emission: Emission::InlineAsm {
                kind: AsmKind::SideEffect,
                result: None,
                inputs,
                template,
                constraints: join(&constraints, ","),
            },
        },
    )
}

/// What [`convert_tensormap_fence`] makes of an operation.
pub open spec fn tensormap_fence_outcome(
    operand_count: nat,
    result_count: usize,
    backend: IntrinsicBackend,
    intrinsic_name: Seq<char>,
    acquire: bool,
    scope: Seq<char>,
) -> Result<LoweringView, Seq<char>> {
    if operand_count != count_if(acquire) || result_count != 0 {
        Err(
            "tensor-map "@ + scope + " proxy fence requires "@ + decimal(count_if(acquire))
                + " operand(s) and no results"@,
        )
    } else if backend == IntrinsicBackend::LlvmNvptx {
        Ok(
            LoweringView {
                first: None,
                emission: EmissionView::Call {
                    symbol: intrinsic_name,
                    arguments: if acquire {
                        seq![
                            TypedArg { ty: ValueType::Pointer(0), value: Arg::Operand(0) },
                            TypedArg { ty: ValueType::Integer(32), value: Arg::I32(128) },
                        ]
                    } else {
                        Seq::empty()
                    },
                },
            },
        )
    } else {
        Ok(
            LoweringView {
                first: None,
                emission: EmissionView::InlineAsm {
                    kind: AsmKind::SideEffect,
                    result: None,
                    inputs: operands_between(0, operand_count),
                    template: if acquire {
                        "fence.proxy.tensormap::generic.acquire."@ + scope + " [$0], 128;"@
                    } else {
                        "fence.proxy.tensormap::generic.release."@ + scope + ";"@
                    },
                    constraints: if acquire {
                        "l,~{memory}"@
                    } else {
                        "~{memory}"@
                    },
                },
            },
        )
    }
}

/// Plans one acquire or release member of the tensor-map proxy-fence family.
pub fn convert_tensormap_fence(
    op: &OpShape,
    backend: IntrinsicBackend,
    intrinsic_name: &str,
    acquire: bool,
    scope: &str,
) -> (r: Result<Lowering, LoweringError>)
    ensures
        outcome(r) == tensormap_fence_outcome(
            op.operand_spaces@.len(),
            op.result_count,
            backend,
            intrinsic_name@,
            acquire,
            scope@,
        ),
{
    let expected = number_if(acquire);
    if op.operand_spaces.len() != expected || op.result_count != 0 {
        return Err(
            LoweringError {
                message: "tensor-map ".to_owned().concat(scope).concat(
                    " proxy fence requires ",
                ).concat(decimal_text(expected as u64).as_str()).concat(
                    " operand(s) and no results",
                ),
            },
        );
    }
    match backend {
        IntrinsicBackend::LlvmNvptx => {
            let mut arguments: Vec<TypedArg> = Vec::new();
            if acquire {
                push_arg(&mut arguments, ValueType::Pointer(0), Arg::Operand(0));
                push_arg(&mut arguments, ValueType::Integer(32), Arg::I32(128));
                assert(arguments@ =~= seq![
                    TypedArg { ty: ValueType::Pointer(0), value: Arg::Operand(0) },
                    TypedArg { ty: ValueType::Integer(32), value: Arg::I32(128) },
                ]);
            }
            Ok(
                Lowering {
                    first: None,
                    emission: Emission::Call { symbol: intrinsic_name.to_owned(), arguments },
                },
            )
        },
        IntrinsicBackend::LibNvvm => {
            let template = if acquire {
                "fence.proxy.tensormap::generic.acquire.".to_owned().concat(scope).concat(
                    " [$0], 128;",
                )
            } else {
                "fence.proxy.tensormap::generic.release.".to_owned().concat(scope).concat(";")
            };
            let constraints = if acquire {
                "l,~{memory}"
            } else {
                "~{memory}"
            };
            let mut inputs: Vec<Arg> = Vec::new();
            push_operands(&mut inputs, 0, expected);
            assert(inputs@ =~= operands_between(0, op.operand_spaces@.len()));
            Ok(
                Lowering {
                    first: None,
                    emission: Emission::InlineAsm {
                        kind: AsmKind::SideEffect,
                        result: None,
                        inputs,
                        template,
                        constraints: constraints.to_owned(),
                    },
                },
            )
        },
    }
}

/// How many operands a group-control operation takes, if it is known.
pub open spec fn control_operands(operation: Seq<char>) -> Option<nat> {
    if operation == "commit_group"@ {
        Some(0)
    } else if operation == "wait_group"@ || operation == "wait_group_read"@ {
        Some(1)
    } else {
        None
    }
}

/// The inline PTX of a group-control operation.
pub open spec fn control_template(operation: Seq<char>) -> Seq<char> {
    if operation == "commit_group"@ {
        "cp.async.bulk.commit_group;"@
    } else if operation == "wait_group"@ {
        "cp.async.bulk.wait_group $0;"@
    } else {
        "cp.async.bulk.wait_group.read $0;"@
    }
}

/// What [`convert_control`] makes of an operation.
pub open spec fn control_outcome(
    operand_count: nat,
    result_count: usize,
    backend: IntrinsicBackend,
    operation: Seq<char>,
    intrinsic_name: Seq<char>,
) -> Result<LoweringView, Seq<char>> {
    match control_operands(operation) {
        None => Err("unsupported TMA control `"@ + operation + "`"@),
        Some(expected) => if operand_count != expected || result_count != 0 {
            Err(
                "TMA "@ + operation + " requires "@ + decimal(expected)
                    + " operand(s) and no results"@,
            )
        } else if backend == IntrinsicBackend::LlvmNvptx {
            Ok(
                LoweringView {
                    first: None,
                    emission: EmissionView::Call {
                        symbol: intrinsic_name,
                        arguments: integer_operands(0, expected, 32),
                    },
                },
            )
        } else {
            Ok(
                LoweringView {
                    first: None,
                    emission: EmissionView::InlineAsm {
                        kind: AsmKind::SideEffect,
                        result: None,
                        inputs: operands_between(0, expected),
                        template: control_template(operation),
                        constraints: if expected == 0 {
                            "~{memory}"@
                        } else {
                            "n,~{memory}"@
                        },
                    },
                },
            )
        },
    }
}

/// Plans one group-control operation.
pub fn convert_control(
    op: &OpShape,
    backend: IntrinsicBackend,
    operation: &str,
    intrinsic_name: &str,
) -> (r: Result<Lowering, LoweringError>)
    ensures
        outcome(r) == control_outcome(
            op.operand_spaces@.len(),
            op.result_count,
            backend,
            operation@,
            intrinsic_name@,
        ),
{
    let commits = same_text(operation, "commit_group");
    let waits = same_text(operation, "wait_group");
    if !commits && !waits && !same_text(operation, "wait_group_read") {
        return Err(
            LoweringError {
                message: "unsupported TMA control `".to_owned().concat(operation).concat("`"),
            },
        );
    }
    let expected: usize = if commits {
        0
    } else {
        1
    };
    if op.operand_spaces.len() != expected || op.result_count != 0 {
        return Err(
            LoweringError {
                message: "TMA ".to_owned().concat(operation).concat(" requires ").concat(
                    decimal_text(expected as u64).as_str(),
                ).concat(" operand(s) and no results"),
            },
        );
    }
    match backend {
        IntrinsicBackend::LlvmNvptx => {
            let mut arguments: Vec<TypedArg> = Vec::new();
            push_integer_operands(&mut arguments, 0, expected, 32);
            assert(arguments@ =~= integer_operands(0, expected as nat, 32));
            Ok(
                Lowering {
                    first: None,
                    emission: Emission::Call { symbol: intrinsic_name.to_owned(), arguments },
                },
            )
        },
        IntrinsicBackend::LibNvvm => {
            let template = if commits {
                "cp.async.bulk.commit_group;"
            } else if waits {
                "cp.async.bulk.wait_group $0;"
            } else {
                "cp.async.bulk.wait_group.read $0;"
            };
            let constraints = if commits {
                "~{memory}"
            } else {
                "n,~{memory}"
            };
            let mut inputs: Vec<Arg> = Vec::new();
            push_operands(&mut inputs, 0, expected);
            assert(inputs@ =~= operands_between(0, expected as nat));
            Ok(
                Lowering {
                    first: None,
                    emission: Emission::InlineAsm {
                        kind: AsmKind::SideEffect,
                        result: None,
                        inputs,
                        template: template.to_owned(),
                        constraints: constraints.to_owned(),
                    },
                },
            )
        },
    }
}

} // verus!
