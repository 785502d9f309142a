//! Non-tensor `cp.async.bulk` copies and prefetches.

use crate::lower::{
    address_in, arg_if, cast_to_addrspace, count_if, number_if, operands_between, outcome,
    push_arg, push_arg_if, push_operands, Arg, AsmKind, Emission, EmissionView, IntrinsicBackend,
    Lowering, LoweringError, LoweringView, OpShape, TypedArg, ValueType,
};
use crate::text::{
    decimal, decimal_text, join, joined, push_text, push_text_if, same_text, text_if, texts,
};
use vstd::prelude::*;

verus! {

/// Which state spaces one non-tensor `cp.async.bulk` operation names.
#[derive(Clone, Copy, Debug, PartialEq, Eq, Structural)]
pub enum BulkDirection {
    GlobalToCluster,
    GlobalToCta,
    CtaToCluster,
    SharedToGlobal,
    PrefetchL2,
}

/// The direction that a name stands for, if it stands for one.
pub open spec fn direction_named(name: Seq<char>) -> Option<BulkDirection> {
    if name == "g2s_cluster"@ {
        Some(BulkDirection::GlobalToCluster)
    } else if name == "g2s_cta"@ {
        Some(BulkDirection::GlobalToCta)
    } else if name == "cta_to_cluster"@ {
        Some(BulkDirection::CtaToCluster)
    } else if name == "s2g"@ {
        Some(BulkDirection::SharedToGlobal)
    } else if name == "prefetch"@ {
        Some(BulkDirection::PrefetchL2)
    } else {
        None
    }
}

impl BulkDirection {
    /// The instruction without its modifiers.
    pub open spec fn mnemonic(self) -> Seq<char> {
        match self {
            BulkDirection::GlobalToCluster => {
                "cp.async.bulk.shared::cluster.global.mbarrier::complete_tx::bytes"@
            },
            BulkDirection::GlobalToCta => {
                "cp.async.bulk.shared::cta.global.mbarrier::complete_tx::bytes"@
            },
            BulkDirection::CtaToCluster => {
                "cp.async.bulk.shared::cluster.shared::cta.mbarrier::complete_tx::bytes"@
            },
            BulkDirection::SharedToGlobal => "cp.async.bulk.global.shared::cta.bulk_group"@,
            BulkDirection::PrefetchL2 => "cp.async.bulk.prefetch.L2.global"@,
        }
    }

    /// The state space into which the destination address is converted.
    pub open spec fn destination(self) -> Seq<char> {
        match self {
            BulkDirection::GlobalToCluster | BulkDirection::CtaToCluster => "shared::cluster"@,
            BulkDirection::GlobalToCta => "shared"@,
            BulkDirection::SharedToGlobal => "global"@,
            BulkDirection::PrefetchL2 => ""@,
        }
    }

    /// The state space into which the source address is converted.
    pub open spec fn source(self) -> Seq<char> {
        match self {
            BulkDirection::CtaToCluster | BulkDirection::SharedToGlobal => "shared"@,
            _ => "global"@,
        }
    }

    /// The address space of the destination parameter of the typed intrinsic.
    pub open spec fn destination_space(self) -> u32 {
        match self {
            BulkDirection::GlobalToCluster | BulkDirection::CtaToCluster => 7,
            BulkDirection::GlobalToCta => 3,
            _ => 1,
        }
    }

    /// The address space of the source parameter of the typed intrinsic.
    pub open spec fn source_space(self) -> u32 {
        match self {
            BulkDirection::CtaToCluster | BulkDirection::SharedToGlobal => 3,
            _ => 1,
        }
    }

    /// Reads the name of a direction.
    pub fn parse(direction: &str) -> (r: Result<Self, LoweringError>)
        ensures
            match r {
                Ok(parsed) => direction_named(direction@) == Some(parsed),
                Err(error) => {
                    &&& direction_named(direction@) is None
                    &&& error.message@ == "unsupported bulk-copy direction `"@ + direction@ + "`"@
                },
            },
    {
        if same_text(direction, "g2s_cluster") {
            Ok(BulkDirection::GlobalToCluster)
        } else if same_text(direction, "g2s_cta") {
            Ok(BulkDirection::GlobalToCta)
        } else if same_text(direction, "cta_to_cluster") {
            Ok(BulkDirection::CtaToCluster)
        } else if same_text(direction, "s2g") {
            Ok(BulkDirection::SharedToGlobal)
        } else if same_text(direction, "prefetch") {
            Ok(BulkDirection::PrefetchL2)
        } else {
            Err(
                LoweringError {
                    message: "unsupported bulk-copy direction `".to_owned().concat(
                        direction,
                    ).concat("`"),
                },
            )
        }
    }

    /// Whether the copy is completed through an mbarrier, which is then its
    /// fourth operand.
    #[verifier::allow_in_spec]
    pub fn uses_barrier(self) -> bool
        returns
            self == BulkDirection::GlobalToCluster || self == BulkDirection::GlobalToCta || self
                == BulkDirection::CtaToCluster,
    {
        matches!(
            self,
            BulkDirection::GlobalToCluster | BulkDirection::GlobalToCta | BulkDirection::CtaToCluster
        )
    }

    /// Whether this is the prefetch hint, which names one address instead of a
    /// source and a destination.
    #[verifier::allow_in_spec]
    pub fn is_prefetch(self) -> bool
        returns
            self == BulkDirection::PrefetchL2,
    {
        matches!(self, BulkDirection::PrefetchL2)
    }
}

/// The shape of one non-tensor `cp.async.bulk` conversion.
#[derive(Clone, Copy, Debug)]
pub struct BulkConfig<'a> {
    pub direction: &'a str,
    pub multicast: bool,
    pub cache_hint: bool,
    pub byte_mask: bool,
    pub intrinsic_name: &'a str,
}

impl<'a> BulkConfig<'a> {
    pub fn new(
        direction: &'a str,
        multicast: bool,
        cache_hint: bool,
        byte_mask: bool,
        intrinsic_name: &'a str,
    ) -> (r: Self)
        ensures
            r == (BulkConfig { direction, multicast, cache_hint, byte_mask, intrinsic_name }),
    {
        BulkConfig { direction, multicast, cache_hint, byte_mask, intrinsic_name }
    }
}

/// The position of the source address among the operands.
pub open spec fn source_position(direction: BulkDirection) -> nat {
    count_if(!direction.is_prefetch())
}

/// The position of the first operand behind the addresses, the size and the
/// barrier.
pub open spec fn trailing_position(direction: BulkDirection) -> nat {
    source_position(direction) + 2 + count_if(direction.uses_barrier())
}

/// How many operands a bulk operation takes.
pub open spec fn bulk_operand_count(
    direction: BulkDirection,
    multicast: bool,
    cache_hint: bool,
    byte_mask: bool,
) -> nat {
    trailing_position(direction) + count_if(multicast) + count_if(cache_hint) + count_if(byte_mask)
}

/// The register declarations and address conversions ahead of the instruction.
pub open spec fn bulk_setup(direction: BulkDirection) -> Seq<char> {
    (if direction.is_prefetch() {
        Seq::empty()
    } else {
        " .reg .u64 %bulk_dst; cvta.to."@ + direction.destination() + ".u64 %bulk_dst, $0;"@
    }) + (" .reg .u64 %bulk_src; cvta.to."@ + direction.source() + ".u64 %bulk_src, $"@ + decimal(
        source_position(direction),
    ) + ";"@) + (if direction.uses_barrier() {
        " .reg .u64 %bulk_mbar; cvta.to.shared.u64 %bulk_mbar, $"@ + decimal(
            source_position(direction) + 2,
        ) + ";"@
    } else {
        Seq::empty()
    })
}

/// The placeholder of the operand at a position.
pub open spec fn placeholder(position: nat) -> Seq<char> {
    "$"@ + decimal(position)
}

/// The operands that the instruction lists.
pub open spec fn bulk_instruction_operands(
    direction: BulkDirection,
    multicast: bool,
    cache_hint: bool,
    byte_mask: bool,
) -> Seq<Seq<char>> {
    let trailing = trailing_position(direction);
    text_if(!direction.is_prefetch(), "[%bulk_dst]"@) + seq!["[%bulk_src]"@] + seq![
        placeholder(source_position(direction) + 1),
    ] + text_if(direction.uses_barrier(), "[%bulk_mbar]"@) + text_if(
        multicast,
        placeholder(trailing),
    ) + text_if(cache_hint, placeholder(trailing + count_if(multicast))) + text_if(
        byte_mask,
        placeholder(trailing + count_if(multicast) + count_if(cache_hint)),
    )
}

/// The modifiers that the optional operands bring.
pub open spec fn bulk_modifiers(multicast: bool, cache_hint: bool, byte_mask: bool) -> Seq<char> {
    (if multicast {
        ".multicast::cluster"@
    } else {
        ""@
    }) + (if cache_hint {
        ".L2::cache_hint"@
    } else {
        ""@
    }) + (if byte_mask {
        ".cp_mask"@
    } else {
        ""@
    })
}

/// The template of one bulk operation.
pub open spec fn bulk_template(
    direction: BulkDirection,
    multicast: bool,
    cache_hint: bool,
    byte_mask: bool,
) -> Seq<char> {
    "{"@ + bulk_setup(direction) + " "@ + direction.mnemonic() + bulk_modifiers(
        multicast,
        cache_hint,
        byte_mask,
    ) + " "@ + joined(
        bulk_instruction_operands(direction, multicast, cache_hint, byte_mask),
        ", "@,
    ) + "; }"@
}

/// The constraints of [`bulk_template`], one per operand, then the memory
/// clobber.
pub open spec fn bulk_constraints(
    direction: BulkDirection,
    multicast: bool,
    cache_hint: bool,
    byte_mask: bool,
) -> Seq<Seq<char>> {
    text_if(!direction.is_prefetch(), "l"@) + seq!["l"@] + seq!["r"@] + text_if(
        direction.uses_barrier(),
        "l"@,
    ) + text_if(multicast, "h"@) + text_if(cache_hint, "l"@) + text_if(byte_mask, "h"@) + seq![
        "~{memory}"@,
    ]
}

fn mnemonic_text(direction: BulkDirection) -> (r: &'static str)
    ensures
        r@ == direction.mnemonic(),
{
    match direction {
        BulkDirection::GlobalToCluster => {
            "cp.async.bulk.shared::cluster.global.mbarrier::complete_tx::bytes"
        },
        BulkDirection::GlobalToCta => {
            "cp.async.bulk.shared::cta.global.mbarrier::complete_tx::bytes"
        },
        BulkDirection::CtaToCluster => {
            "cp.async.bulk.shared::cluster.shared::cta.mbarrier::complete_tx::bytes"
        },
        BulkDirection::SharedToGlobal => "cp.async.bulk.global.shared::cta.bulk_group",
        BulkDirection::PrefetchL2 => "cp.async.bulk.prefetch.L2.global",
    }
}

fn placeholder_text(position: usize) -> (r: String)
    ensures
        r@ == placeholder(position as nat),
{
    "$".to_owned().concat(decimal_text(position as u64).as_str())
}

/// Spells one bulk copy or prefetch as inline PTX.
///
/// Operands arrive in the order in which the safe wrapper spells them, so the
/// template converts each generic address into the state space that the
/// instruction names rather than relying on the incoming pointer already
/// carrying it.
pub fn bulk_inline_asm(
    direction: BulkDirection,
    multicast: bool,
    cache_hint: bool,
    byte_mask: bool,
) -> (r: (String, String))
    ensures
        r.0@ == bulk_template(direction, multicast, cache_hint, byte_mask),
        r.1@ == joined(bulk_constraints(direction, multicast, cache_hint, byte_mask), ","@),
{
    let destination = match direction {
        BulkDirection::GlobalToCluster | BulkDirection::CtaToCluster => "shared::cluster",
        BulkDirection::GlobalToCta => "shared",
        BulkDirection::SharedToGlobal => "global",
        BulkDirection::PrefetchL2 => "",
    };
    let source = match direction {
        BulkDirection::CtaToCluster | BulkDirection::SharedToGlobal => "shared",
        _ => "global",
    };
    let mut constraints: Vec<String> = Vec::new();
    let mut operands: Vec<String> = Vec::new();
    let source_at = number_if(!direction.is_prefetch());
    let destination_setup = if direction.is_prefetch() {
        String::new()
    } else {
        " .reg .u64 %bulk_dst; cvta.to.".to_owned().concat(destination).concat(
            ".u64 %bulk_dst, $0;",
        )
    };
    push_text_if(&mut operands, !direction.is_prefetch(), "[%bulk_dst]");
    push_text_if(&mut constraints, !direction.is_prefetch(), "l");
    let source_setup = " .reg .u64 %bulk_src; cvta.to.".to_owned().concat(source).concat(
        ".u64 %bulk_src, $",
    ).concat(decimal_text(source_at as u64).as_str()).concat(";");
    push_text(&mut operands, "[%bulk_src]");
    push_text(&mut constraints, "l");
    push_text(&mut operands, placeholder_text(source_at + 1).as_str());
    push_text(&mut constraints, "r");
    let barrier_setup = if direction.uses_barrier() {
        " .reg .u64 %bulk_mbar; cvta.to.shared.u64 %bulk_mbar, $".to_owned().concat(
            decimal_text((source_at + 2) as u64).as_str(),
        ).concat(";")
    } else {
        String::new()
    };
    push_text_if(&mut operands, direction.uses_barrier(), "[%bulk_mbar]");
    push_text_if(&mut constraints, direction.uses_barrier(), "l");
    let setup = destination_setup.concat(source_setup.as_str()).concat(barrier_setup.as_str());
    let trailing = source_at + 2 + number_if(direction.uses_barrier());
    push_text_if(&mut operands, multicast, placeholder_text(trailing).as_str());
    push_text_if(&mut constraints, multicast, "h");
    let hint_at = trailing + number_if(multicast);
    push_text_if(&mut operands, cache_hint, placeholder_text(hint_at).as_str());
    push_text_if(&mut constraints, cache_hint, "l");
    let mask_at = hint_at + number_if(cache_hint);
    push_text_if(&mut operands, byte_mask, placeholder_text(mask_at).as_str());
    push_text_if(&mut constraints, byte_mask, "h");
    push_text(&mut constraints, "~{memory}");
    let modifiers = (if multicast {
        ".multicast::cluster"
    } else {
        ""
    }).to_owned().concat(
        if cache_hint {
            ".L2::cache_hint"
        } else {
            ""
        },
    ).concat(
        if byte_mask {
            ".cp_mask"
        } else {
            ""
        },
    );
    assert(texts(operands@) =~= bulk_instruction_operands(
        direction,
        multicast,
        cache_hint,
        byte_mask,
    ));
    assert(texts(constraints@) =~= bulk_constraints(direction, multicast, cache_hint, byte_mask));
    let template = "{".to_owned().concat(setup.as_str()).concat(" ").concat(
        mnemonic_text(direction),
    ).concat(modifiers.as_str()).concat(" ").concat(join(&operands, ", ").as_str()).concat("; }");
    (template, join(&constraints, ","))
}

/// The arguments of the typed bulk intrinsic, which takes its addresses in
/// another order than the safe wrapper: destination, barrier, source.
///
/// A multicast mask or cache hint that the operation does not have is zero,
/// and a flag says that it is unused.
pub open spec fn bulk_arguments(
    spaces: Seq<Option<u32>>,
    direction: BulkDirection,
    multicast: bool,
    cache_hint: bool,
    byte_mask: bool,
) -> Seq<TypedArg> {
    let source = source_position(direction);
    let trailing = trailing_position(direction);
    let to_cluster = direction == BulkDirection::GlobalToCluster;
    let hinted = direction != BulkDirection::CtaToCluster;
    arg_if(
        !direction.is_prefetch(),
        ValueType::Pointer(direction.destination_space()),
        address_in(spaces, 0, direction.destination_space()),
    ) + arg_if(
        direction.uses_barrier(),
        ValueType::Pointer(3),
        Arg::Shared((source + 2) as usize),
    ) + seq![
        TypedArg {
            ty: ValueType::Pointer(direction.source_space()),
            value: address_in(spaces, source, direction.source_space()),
        },
    ] + seq![
        TypedArg { ty: ValueType::Integer(32), value: Arg::Operand((source + 1) as usize) },
    ] + arg_if(
        to_cluster,
        ValueType::Integer(16),
        if multicast {
            Arg::Operand(trailing as usize)
        } else {
            Arg::I16(0)
        },
    ) + arg_if(
        hinted,
        ValueType::Integer(64),
        if cache_hint {
            Arg::Operand((trailing + count_if(multicast)) as usize)
        } else {
            Arg::I64(0)
        },
    ) + arg_if(to_cluster, ValueType::Integer(1), Arg::I1(multicast)) + arg_if(
        hinted,
        ValueType::Integer(1),
        Arg::I1(cache_hint),
    ) + arg_if(
        byte_mask,
        ValueType::Integer(16),
        Arg::Operand((trailing + count_if(multicast) + count_if(cache_hint)) as usize),
    )
}

/// What [`convert_bulk`] makes of an operation.
pub open spec fn bulk_outcome(
    spaces: Seq<Option<u32>>,
    result_count: usize,
    backend: IntrinsicBackend,
    config: BulkConfig<'_>,
) -> Result<LoweringView, Seq<char>> {
    match direction_named(config.direction@) {
        None => Err("unsupported bulk-copy direction `"@ + config.direction@ + "`"@),
        Some(direction) => {
            let expected = bulk_operand_count(
                direction,
                config.multicast,
                config.cache_hint,
                config.byte_mask,
            );
            if spaces.len() != expected || result_count != 0 {
                Err(
                    "cp.async.bulk requires "@ + decimal(expected)
                        + " operand(s) and no results"@,
                )
            } else if backend == IntrinsicBackend::LibNvvm {
                Ok(
                    LoweringView {
                        first: None,
                        emission: EmissionView::InlineAsm {
                            kind: AsmKind::Convergent,
                            result: None,
                            inputs: operands_between(0, spaces.len()),
                            template: bulk_template(
                                direction,
                                config.multicast,
                                config.cache_hint,
                                config.byte_mask,
                            ),
                            constraints: joined(
                                bulk_constraints(
                                    direction,
                                    config.multicast,
                                    config.cache_hint,
                                    config.byte_mask,
                                ),
                                ","@,
                            ),
                        },
                    },
                )
            } else {
                Ok(
                    LoweringView {
                        first: None,
                        emission: EmissionView::Call {
                            symbol: config.intrinsic_name@,
                            arguments: bulk_arguments(
                                spaces,
                                direction,
                                config.multicast,
                                config.cache_hint,
                                config.byte_mask,
                            ),
                        },
                    },
                )
            }
        },
    }
}

/// Plans one non-tensor `cp.async.bulk` copy or prefetch.
///
/// The legacy NVVM library does not know the typed intrinsics, so there the
/// inline PTX carries the whole instruction.
pub fn convert_bulk(op: &OpShape, backend: IntrinsicBackend, config: BulkConfig<'_>) -> (r: Result<
    Lowering,
    LoweringError,
>)
    ensures
        outcome(r) == bulk_outcome(op.operand_spaces@, op.result_count, backend, config),
{
    let multicast = config.multicast;
    let cache_hint = config.cache_hint;
    let byte_mask = config.byte_mask;
    let direction = match BulkDirection::parse(config.direction) {
        Ok(direction) => direction,
        Err(error) => {
            return Err(error);
        },
    };
    let source = number_if(!direction.is_prefetch());
    let trailing = source + 2 + number_if(direction.uses_barrier());
    let hint_at = trailing + number_if(multicast);
    let mask_at = hint_at + number_if(cache_hint);
    let expected = mask_at + number_if(byte_mask);
    if op.operand_spaces.len() != expected || op.result_count != 0 {
        return Err(
            LoweringError {
                message: "cp.async.bulk requires ".to_owned().concat(
                    decimal_text(expected as u64).as_str(),
                ).concat(" operand(s) and no results"),
            },
        );
    }
    if backend == IntrinsicBackend::LibNvvm {
        let mut inputs: Vec<Arg> = Vec::new();
        push_operands(&mut inputs, 0, expected);
        assert(inputs@ =~= operands_between(0, op.operand_spaces@.len()));
        let (template, constraints) = bulk_inline_asm(direction, multicast, cache_hint, byte_mask);
        return Ok(
            Lowering {
                first: None,
                emission: Emission::InlineAsm {
                    kind: AsmKind::Convergent,
                    result: None,
                    inputs,
                    template,
                    constraints,
                },
            },
        );
    }
    let to_cluster = direction == BulkDirection::GlobalToCluster;
    let hinted = direction != BulkDirection::CtaToCluster;
    let mut arguments: Vec<TypedArg> = Vec::new();
    let destination_space: u32 = match direction {
        BulkDirection::GlobalToCluster | BulkDirection::CtaToCluster => 7,
        BulkDirection::GlobalToCta => 3,
        _ => 1,
    };
    push_arg_if(
        &mut arguments,
        !direction.is_prefetch(),
        ValueType::Pointer(destination_space),
        cast_to_addrspace(op, 0, destination_space),
    );
    push_arg_if(
        &mut arguments,
        direction.uses_barrier(),
        ValueType::Pointer(3),
        Arg::Shared(source + 2),
    );
    let source_space: u32 = match direction {
        BulkDirection::CtaToCluster | BulkDirection::SharedToGlobal => 3,
        _ => 1,
    };
    push_arg(
        &mut arguments,
        ValueType::Pointer(source_space),
        cast_to_addrspace(op, source, source_space),
    );
    push_arg(&mut arguments, ValueType::Integer(32), Arg::Operand(source + 1));
    push_arg_if(
        &mut arguments,
        to_cluster,
        ValueType::Integer(16),
        if multicast {
            Arg::Operand(trailing)
        } else {
            Arg::I16(0)
        },
    );
    push_arg_if(
        &mut arguments,
        hinted,
        ValueType::Integer(64),
        if cache_hint {
            Arg::Operand(hint_at)
        } else {
            Arg::I64(0)
        },
    );
    push_arg_if(&mut arguments, to_cluster, ValueType::Integer(1), Arg::I1(multicast));
    push_arg_if(&mut arguments, hinted, ValueType::Integer(1), Arg::I1(cache_hint));
    push_arg_if(&mut arguments, byte_mask, ValueType::Integer(16), Arg::Operand(mask_at));
    assert(arguments@ =~= bulk_arguments(
        op.operand_spaces@,
        direction,
        multicast,
        cache_hint,
        byte_mask,
    ));
    Ok(
        Lowering {
            first: None,
            emission: Emission::Call { symbol: config.intrinsic_name.to_owned(), arguments },
        },
    )
}

} // verus!
