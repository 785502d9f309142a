//! What the plans of bulk copies and prefetches do, direction by direction.

use crate::lower::bulk::{
    bulk_arguments, bulk_constraints, bulk_instruction_operands, bulk_outcome, bulk_setup,
    BulkConfig, BulkDirection,
};
use crate::lower::{
    Arg, AsmKind, EmissionView, IntrinsicBackend, LoweringView, TypedArg, ValueType,
};
use crate::text::{decimal, joined, occurs_in, occurs_in_extension, text_if};
use vstd::prelude::*;

verus! {

/// How many optional operands an operation has.
pub open spec fn extras(config: BulkConfig<'_>) -> nat {
    (if config.multicast {
        1nat
    } else {
        0nat
    }) + (if config.cache_hint {
        1nat
    } else {
        0nat
    }) + (if config.byte_mask {
        1nat
    } else {
        0nat
    })
}

/// The position behind the fixed operands and up to two optional ones.
pub open spec fn nat_after(fixed: nat, one: bool, two: bool) -> nat {
    fixed + (if one {
        1nat
    } else {
        0nat
    }) + (if two {
        1nat
    } else {
        0nat
    })
}

/// The operand behind the fixed ones and up to two optional ones.
pub open spec fn operand_after(fixed: nat, one: bool, two: bool) -> Arg {
    Arg::Operand(nat_after(fixed, one, two) as usize)
}

/// An operand brought into global memory, unless it is a global pointer.
pub open spec fn in_global(spaces: Seq<Option<u32>>, operand: usize) -> Arg {
    if spaces[operand as int] == Some(1u32) {
        Arg::Operand(operand)
    } else {
        Arg::InSpace { operand, space: 1 }
    }
}

/// The modifiers that the optional operands bring.
pub open spec fn extra_modifiers(config: BulkConfig<'_>) -> Seq<char> {
    (if config.multicast {
        ".multicast::cluster"@
    } else {
        seq![]
    }) + (if config.cache_hint {
        ".L2::cache_hint"@
    } else {
        seq![]
    }) + (if config.byte_mask {
        ".cp_mask"@
    } else {
        seq![]
    })
}

/// The optional operands, as the instruction names them.
pub open spec fn extra_operands(config: BulkConfig<'_>, fixed: nat) -> Seq<char> {
    (if config.multicast {
        ", $"@ + decimal(fixed)
    } else {
        seq![]
    }) + (if config.cache_hint {
        ", $"@ + decimal(nat_after(fixed, config.multicast, false))
    } else {
        seq![]
    }) + (if config.byte_mask {
        ", $"@ + decimal(nat_after(fixed, config.multicast, config.cache_hint))
    } else {
        seq![]
    })
}

/// The constraints of the optional operands.
pub open spec fn extra_constraints(config: BulkConfig<'_>) -> Seq<char> {
    (if config.multicast {
        ",h"@
    } else {
        seq![]
    }) + (if config.cache_hint {
        ",l"@
    } else {
        seq![]
    }) + (if config.byte_mask {
        ",h"@
    } else {
        seq![]
    })
}

/// Whether a plan is convergent inline assembly over all operands, in order.
pub open spec fn takes_all(plan: LoweringView, operand_count: nat) -> bool {
    plan.first is None && (plan.emission matches EmissionView::InlineAsm {
        kind,
        result,
        inputs,
        ..
    } && kind == AsmKind::Convergent && result is None && inputs.len() == operand_count && (forall|
        i: int,
    |
        0 <= i < inputs.len() ==> #[trigger] inputs[i] == Arg::Operand(i as usize)))
}

/// The names of directions are distinct.
proof fn directions_have_names()
    ensures
        "g2s_cluster"@ != "g2s_cta"@,
        "g2s_cluster"@ != "cta_to_cluster"@,
        "g2s_cluster"@ != "s2g"@,
        "g2s_cluster"@ != "prefetch"@,
        "g2s_cta"@ != "cta_to_cluster"@,
        "g2s_cta"@ != "s2g"@,
        "g2s_cta"@ != "prefetch"@,
        "cta_to_cluster"@ != "s2g"@,
        "cta_to_cluster"@ != "prefetch"@,
        "s2g"@ != "prefetch"@,
{
    reveal_strlit("g2s_cluster");
    reveal_strlit("g2s_cta");
    reveal_strlit("cta_to_cluster");
    reveal_strlit("s2g");
    reveal_strlit("prefetch");
    assert("g2s_cluster"@.len() == 11);
    assert("g2s_cta"@.len() == 7);
    assert("cta_to_cluster"@.len() == 14);
    assert("s2g"@.len() == 3);
    assert("prefetch"@.len() == 8);
}

/// The first numbers in decimal.
proof fn digits_by_name()
    ensures
        decimal(0) == "0"@,
        decimal(1) == "1"@,
        decimal(2) == "2"@,
        decimal(3) == "3"@,
{
    reveal_strlit("0");
    reveal_strlit("1");
    reveal_strlit("2");
    reveal_strlit("3");
    assert(decimal(0) =~= "0"@);
    assert(decimal(1) =~= "1"@);
    assert(decimal(2) =~= "2"@);
    assert(decimal(3) =~= "3"@);
}

/// One more part, if there is one, follows a separator.
proof fn join_with_option(
    parts: Seq<Seq<char>>,
    separator: Seq<char>,
    present: bool,
    part: Seq<char>,
)
    requires
        parts.len() > 0,
    ensures
        joined(parts + text_if(present, part), separator) == joined(parts, separator) + (
        if present {
            separator + part
        } else {
            seq![]
        }),
{
    let all = parts + text_if(present, part);
    if present {
        assert(all.drop_last() =~= parts);
        assert(joined(all, separator) =~= joined(parts, separator) + (separator + part));
    } else {
        assert(all =~= parts);
        assert(joined(parts, separator) =~= joined(parts, separator) + Seq::<char>::empty());
    }
}

proof fn join_with_options(
    parts: Seq<Seq<char>>,
    separator: Seq<char>,
    m: bool,
    a: Seq<char>,
    h: bool,
    b: Seq<char>,
    k: bool,
    c: Seq<char>,
)
    requires
        parts.len() > 0,
    ensures
        joined(parts + text_if(m, a) + text_if(h, b) + text_if(k, c), separator) == joined(
            parts,
            separator,
        ) + (if m {
            separator + a
        } else {
            seq![]
        }) + (if h {
            separator + b
        } else {
            seq![]
        }) + (if k {
            separator + c
        } else {
            seq![]
        }),
{
    join_with_option(parts, separator, m, a);
    join_with_option(parts + text_if(m, a), separator, h, b);
    join_with_option(parts + text_if(m, a) + text_if(h, b), separator, k, c);
}

proof fn spelled_2(parts: Seq<Seq<char>>, separator: Seq<char>)
    requires
        parts.len() == 2,
    ensures
        joined(parts, separator) == parts[0] + separator + parts[1],
{
    assert(parts.drop_last() =~= seq![parts[0]]);
    assert(joined(parts.drop_last(), separator) == parts[0]);
}

proof fn spelled_3(parts: Seq<Seq<char>>, separator: Seq<char>)
    requires
        parts.len() == 3,
    ensures
        joined(parts, separator) == parts[0] + separator + parts[1] + separator + parts[2],
{
    spelled_2(parts.drop_last(), separator);
}

proof fn spelled_4(parts: Seq<Seq<char>>, separator: Seq<char>)
    requires
        parts.len() == 4,
    ensures
        joined(parts, separator) == parts[0] + separator + parts[1] + separator + parts[2]
            + separator + parts[3],
{
    spelled_3(parts.drop_last(), separator);
}

/// The optional texts of the two ways to write them.
proof fn extras_by_name(config: BulkConfig<'_>, fixed: nat)
    ensures
        ({
            let (m, h, k) = (config.multicast, config.cache_hint, config.byte_mask);
            let comma = ","@;
            let dollar = "$"@;
            &&& crate::lower::bulk::bulk_modifiers(m, h, k) == extra_modifiers(config)
            &&& extra_operands(config, fixed) == (if m {
                ", "@ + (dollar + decimal(nat_after(fixed, false, false)))
            } else {
                seq![]
            }) + (if h {
                ", "@ + (dollar + decimal(nat_after(fixed, m, false)))
            } else {
                seq![]
            }) + (if k {
                ", "@ + (dollar + decimal(nat_after(fixed, m, h)))
            } else {
                seq![]
            })
            &&& extra_constraints(config) == (if m {
                comma + "h"@
            } else {
                seq![]
            }) + (if h {
                comma + "l"@
            } else {
                seq![]
            }) + (if k {
                comma + "h"@
            } else {
                seq![]
            })
            &&& ",~{memory}"@ == comma + "~{memory}"@
        }),
{
    let (m, h, k) = (config.multicast, config.cache_hint, config.byte_mask);
    reveal_strlit("");
    reveal_strlit(",");
    reveal_strlit("$");
    reveal_strlit(", ");
    reveal_strlit(", $");
    reveal_strlit("h");
    reveal_strlit("l");
    reveal_strlit(",h");
    reveal_strlit(",l");
    reveal_strlit("~{memory}");
    reveal_strlit(",~{memory}");
    assert(",h"@ =~= ","@ + "h"@);
    assert(",l"@ =~= ","@ + "l"@);
    assert(",~{memory}"@ =~= ","@ + "~{memory}"@);
    assert(", $"@ =~= ", "@ + "$"@);
    assert(""@ =~= seq![]);
    let (x, y, z) = (nat_after(fixed, false, false), nat_after(fixed, m, false), nat_after(fixed, m, h));
    assert(", $"@ + decimal(x) =~= ", "@ + ("$"@ + decimal(x)));
    assert(", $"@ + decimal(y) =~= ", "@ + ("$"@ + decimal(y)));
    assert(", $"@ + decimal(z) =~= ", "@ + ("$"@ + decimal(z)));
}

proof fn regroup(y: Seq<char>, x: Seq<char>, a: Seq<char>, b: Seq<char>, c: Seq<char>)
    ensures
        x + a + b + c == x + (a + b + c),
        y + (x + a + b + c) == y + x + (a + b + c),
{
    assert(x + a + b + c =~= x + (a + b + c));
    assert(y + (x + a + b + c) =~= y + x + (a + b + c));
}

/// Bulk operations are refused for a name that is none of five, then for a
/// wrong number of operands or a result; both backends refuse alike.
pub proof fn bulk_is_refused_by_name_and_count(
    spaces: Seq<Option<u32>>,
    result_count: usize,
    backend: IntrinsicBackend,
    config: BulkConfig<'_>,
)
    ensures
        ({
            let name = config.direction@;
            let four = name == "g2s_cluster"@ || name == "g2s_cta"@ || name == "cta_to_cluster"@;
            let known = four || name == "s2g"@ || name == "prefetch"@;
            let expected = extras(config) + (if four {
                4nat
            } else if name == "s2g"@ {
                3nat
            } else {
                2nat
            });
            let outcome = bulk_outcome(spaces, result_count, backend, config);
            &&& outcome is Ok <==> known && spaces.len() == expected && result_count == 0
            &&& !known ==> outcome == Err::<LoweringView, Seq<char>>(
                "unsupported bulk-copy direction `"@ + name + "`"@,
            )
            &&& known && (spaces.len() != expected || result_count != 0) ==> outcome == Err::<
                LoweringView,
                Seq<char>,
            >("cp.async.bulk requires "@ + decimal(expected) + " operand(s) and no results"@)
        }),
{
    directions_have_names();
}

/// The typed `g2s_cluster` operation: where each argument comes from.
pub proof fn g2s_cluster_call_passes_each_operand(
    spaces: Seq<Option<u32>>,
    config: BulkConfig<'_>,
)
    requires
        config.direction@ == "g2s_cluster"@,
        spaces.len() == 4 + extras(config),
    ensures
        ({
            let multicast = config.multicast;
            let cache_hint = config.cache_hint;
            bulk_outcome(spaces, 0, IntrinsicBackend::LlvmNvptx, config) matches Ok(plan)
                && plan.first is None && (plan.emission matches EmissionView::Call {
                symbol,
                arguments,
            } && symbol == config.intrinsic_name@ && arguments == (seq![
                    TypedArg { ty: ValueType::Pointer(7), value: Arg::Cluster(0) },
                    TypedArg { ty: ValueType::Pointer(3), value: Arg::Shared(3) },
                    TypedArg { ty: ValueType::Pointer(1), value: in_global(spaces, 1) },
                    TypedArg { ty: ValueType::Integer(32), value: Arg::Operand(2) },
                    TypedArg { ty: ValueType::Integer(16), value: if multicast { Arg::Operand(4) } else { Arg::I16(0) } },
                    TypedArg { ty: ValueType::Integer(64), value: if cache_hint { operand_after(4, multicast, false) } else { Arg::I64(0) } },
                    TypedArg { ty: ValueType::Integer(1), value: Arg::I1(multicast) },
                    TypedArg { ty: ValueType::Integer(1), value: Arg::I1(cache_hint) },
            ] + (if config.byte_mask {
                seq![TypedArg { ty: ValueType::Integer(16), value: operand_after(4, multicast, cache_hint) }]
            } else {
                seq![]
            })))
        }),
{
    directions_have_names();
    let arguments = bulk_arguments(
        spaces,
        BulkDirection::GlobalToCluster,
        config.multicast,
        config.cache_hint,
        config.byte_mask,
    );
    let multicast = config.multicast;
    let cache_hint = config.cache_hint;
    assert(arguments =~= (seq![
                    TypedArg { ty: ValueType::Pointer(7), value: Arg::Cluster(0) },
                    TypedArg { ty: ValueType::Pointer(3), value: Arg::Shared(3) },
                    TypedArg { ty: ValueType::Pointer(1), value: in_global(spaces, 1) },
                    TypedArg { ty: ValueType::Integer(32), value: Arg::Operand(2) },
                    TypedArg { ty: ValueType::Integer(16), value: if multicast { Arg::Operand(4) } else { Arg::I16(0) } },
                    TypedArg { ty: ValueType::Integer(64), value: if cache_hint { operand_after(4, multicast, false) } else { Arg::I64(0) } },
                    TypedArg { ty: ValueType::Integer(1), value: Arg::I1(multicast) },
                    TypedArg { ty: ValueType::Integer(1), value: Arg::I1(cache_hint) },
    ] + (if config.byte_mask {
        seq![TypedArg { ty: ValueType::Integer(16), value: operand_after(4, multicast, cache_hint) }]
    } else {
        seq![]
    })));
}

/// The inline `g2s_cluster` operation: the state space of each address, and the
/// place of each operand.
pub proof fn g2s_cluster_assembly_spells_the_copy(
    spaces: Seq<Option<u32>>,
    config: BulkConfig<'_>,
)
    requires
        config.direction@ == "g2s_cluster"@,
        spaces.len() == 4 + extras(config),
    ensures
        bulk_outcome(spaces, 0, IntrinsicBackend::LibNvvm, config) matches Ok(plan) && takes_all(
            plan,
            spaces.len(),
        ) && (plan.emission matches EmissionView::InlineAsm { template, constraints, .. } && template
            == "{ .reg .u64 %bulk_dst; cvta.to.shared::cluster.u64 %bulk_dst, $0; .reg .u64 %bulk_src; cvta.to.global.u64 %bulk_src, $1; .reg .u64 %bulk_mbar; cvta.to.shared.u64 %bulk_mbar, $3; cp.async.bulk.shared::cluster.global.mbarrier::complete_tx::bytes"@
            + extra_modifiers(config) + " "@ + "[%bulk_dst], [%bulk_src], $2, [%bulk_mbar]"@ + extra_operands(config, 4) + "; }"@
            && constraints == "l,l,r,l"@ + extra_constraints(config) + ",~{memory}"@),
{
    directions_have_names();
    let (m, h, k) = (config.multicast, config.cache_hint, config.byte_mask);
    let direction = BulkDirection::GlobalToCluster;
    g2s_cluster_setup();
    g2s_cluster_operands(m, h, k);
    g2s_cluster_constraints(m, h, k);
    extras_by_name(config, 4);
    regroup(
        "{ .reg .u64 %bulk_dst; cvta.to.shared::cluster.u64 %bulk_dst, $0; .reg .u64 %bulk_src; cvta.to.global.u64 %bulk_src, $1; .reg .u64 %bulk_mbar; cvta.to.shared.u64 %bulk_mbar, $3; cp.async.bulk.shared::cluster.global.mbarrier::complete_tx::bytes"@ + extra_modifiers(config) + " "@,
        "[%bulk_dst], [%bulk_src], $2, [%bulk_mbar]"@,
        if m {
            ", "@ + ("$"@ + decimal(nat_after(4, false, false)))
        } else {
            seq![]
        },
        if h {
            ", "@ + ("$"@ + decimal(nat_after(4, m, false)))
        } else {
            seq![]
        },
        if k {
            ", "@ + ("$"@ + decimal(nat_after(4, m, h)))
        } else {
            seq![]
        },
    );
    regroup(
        seq![],
        "l,l,r,l"@,
        if m {
            ","@ + "h"@
        } else {
            seq![]
        },
        if h {
            ","@ + "l"@
        } else {
            seq![]
        },
        if k {
            ","@ + "h"@
        } else {
            seq![]
        },
    );
}

proof fn g2s_cluster_setup()
    ensures
        "{"@ + bulk_setup(BulkDirection::GlobalToCluster) + " "@ + BulkDirection::GlobalToCluster.mnemonic()
            == "{ .reg .u64 %bulk_dst; cvta.to.shared::cluster.u64 %bulk_dst, $0; .reg .u64 %bulk_src; cvta.to.global.u64 %bulk_src, $1; .reg .u64 %bulk_mbar; cvta.to.shared.u64 %bulk_mbar, $3; cp.async.bulk.shared::cluster.global.mbarrier::complete_tx::bytes"@,
{
    reveal_strlit("{ .reg .u64 %bulk_dst; cvta.to.shared::cluster.u64 %bulk_dst, $0; .reg .u64 %bulk_src; cvta.to.global.u64 %bulk_src, $1; .reg .u64 %bulk_mbar; cvta.to.shared.u64 %bulk_mbar, $3; cp.async.bulk.shared::cluster.global.mbarrier::complete_tx::bytes");
    reveal_strlit("{");
    reveal_strlit(" ");
    reveal_strlit(";");
    reveal_strlit(".u64 %bulk_dst, $0;");
    reveal_strlit(".u64 %bulk_src, $");
    reveal_strlit(" .reg .u64 %bulk_dst; cvta.to.");
    reveal_strlit(" .reg .u64 %bulk_src; cvta.to.");
    reveal_strlit(" .reg .u64 %bulk_mbar; cvta.to.shared.u64 %bulk_mbar, $");
    reveal_strlit("cp.async.bulk.shared::cluster.global.mbarrier::complete_tx::bytes");
    reveal_strlit("global");
    reveal_strlit("0");
    reveal_strlit("1");
    reveal_strlit("3");
    reveal_strlit("shared::cluster");
    digits_by_name();
    assert("{"@ + bulk_setup(BulkDirection::GlobalToCluster) + " "@ + BulkDirection::GlobalToCluster.mnemonic()
        =~= "{ .reg .u64 %bulk_dst; cvta.to.shared::cluster.u64 %bulk_dst, $0; .reg .u64 %bulk_src; cvta.to.global.u64 %bulk_src, $1; .reg .u64 %bulk_mbar; cvta.to.shared.u64 %bulk_mbar, $3; cp.async.bulk.shared::cluster.global.mbarrier::complete_tx::bytes"@);
}

proof fn g2s_cluster_operands(m: bool, h: bool, k: bool)
    ensures
        joined(bulk_instruction_operands(BulkDirection::GlobalToCluster, m, h, k), ", "@)
            == "[%bulk_dst], [%bulk_src], $2, [%bulk_mbar]"@ + (if m {
            ", "@ + ("$"@ + decimal(nat_after(4, false, false)))
        } else {
            seq![]
        }) + (if h {
            ", "@ + ("$"@ + decimal(nat_after(4, m, false)))
        } else {
            seq![]
        }) + (if k {
            ", "@ + ("$"@ + decimal(nat_after(4, m, h)))
        } else {
            seq![]
        }),
{
    digits_by_name();
    let base = seq!["[%bulk_dst]"@, "[%bulk_src]"@, "$2"@, "[%bulk_mbar]"@];
    assert(base[2] =~= "$"@ + decimal(2)) by {
        reveal_strlit("$");
        reveal_strlit("2");
        reveal_strlit("$2");
    }
    let first = nat_after(4, false, false);
    let second = nat_after(4, m, false);
    let third = nat_after(4, m, h);
    assert(bulk_instruction_operands(BulkDirection::GlobalToCluster, m, h, k) =~= base + text_if(
        m,
        "$"@ + decimal(first),
    ) + text_if(h, "$"@ + decimal(second)) + text_if(k, "$"@ + decimal(third)));
    join_with_options(
        base,
        ", "@,
        m,
        "$"@ + decimal(first),
        h,
        "$"@ + decimal(second),
        k,
        "$"@ + decimal(third),
    );
    spelled_4(base, ", "@);
    assert(joined(base, ", "@) =~= "[%bulk_dst], [%bulk_src], $2, [%bulk_mbar]"@) by {
        reveal_strlit(", ");
        reveal_strlit("[%bulk_dst], [%bulk_src], $2, [%bulk_mbar]");
        reveal_strlit("[%bulk_dst]");
        reveal_strlit("[%bulk_src]");
        reveal_strlit("$2");
        reveal_strlit("[%bulk_mbar]");
    }
}

proof fn g2s_cluster_constraints(m: bool, h: bool, k: bool)
    ensures
        joined(bulk_constraints(BulkDirection::GlobalToCluster, m, h, k), ","@) == "l,l,r,l"@ + (if m {
            ","@ + "h"@
        } else {
            seq![]
        }) + (if h {
            ","@ + "l"@
        } else {
            seq![]
        }) + (if k {
            ","@ + "h"@
        } else {
            seq![]
        }) + (","@ + "~{memory}"@),
{
    let base = seq!["l"@, "l"@, "r"@, "l"@];
    let kept = base + text_if(m, "h"@) + text_if(h, "l"@) + text_if(k, "h"@);
    assert(bulk_constraints(BulkDirection::GlobalToCluster, m, h, k) =~= kept + text_if(
        true,
        "~{memory}"@,
    ));
    join_with_options(base, ","@, m, "h"@, h, "l"@, k, "h"@);
    join_with_option(kept, ","@, true, "~{memory}"@);
    spelled_4(base, ","@);
    assert(joined(base, ","@) =~= "l,l,r,l"@) by {
        reveal_strlit(",");
        reveal_strlit("l,l,r,l");
        reveal_strlit("l");
        reveal_strlit("r");
    }
}

/// The typed `g2s_cta` operation: where each argument comes from.
pub proof fn g2s_cta_call_passes_each_operand(
    spaces: Seq<Option<u32>>,
    config: BulkConfig<'_>,
)
    requires
        config.direction@ == "g2s_cta"@,
        spaces.len() == 4 + extras(config),
    ensures
        ({
            let multicast = config.multicast;
            let cache_hint = config.cache_hint;
            bulk_outcome(spaces, 0, IntrinsicBackend::LlvmNvptx, config) matches Ok(plan)
                && plan.first is None && (plan.emission matches EmissionView::Call {
                symbol,
                arguments,
            } && symbol == config.intrinsic_name@ && arguments == (seq![
                    TypedArg { ty: ValueType::Pointer(3), value: Arg::Shared(0) },
                    TypedArg { ty: ValueType::Pointer(3), value: Arg::Shared(3) },
                    TypedArg { ty: ValueType::Pointer(1), value: in_global(spaces, 1) },
                    TypedArg { ty: ValueType::Integer(32), value: Arg::Operand(2) },
                    TypedArg { ty: ValueType::Integer(64), value: if cache_hint { operand_after(4, multicast, false) } else { Arg::I64(0) } },
                    TypedArg { ty: ValueType::Integer(1), value: Arg::I1(cache_hint) },
            ] + (if config.byte_mask {
                seq![TypedArg { ty: ValueType::Integer(16), value: operand_after(4, multicast, cache_hint) }]
            } else {
                seq![]
            })))
        }),
{
    directions_have_names();
    let arguments = bulk_arguments(
        spaces,
        BulkDirection::GlobalToCta,
        config.multicast,
        config.cache_hint,
        config.byte_mask,
    );
    let multicast = config.multicast;
    let cache_hint = config.cache_hint;
    assert(arguments =~= (seq![
                    TypedArg { ty: ValueType::Pointer(3), value: Arg::Shared(0) },
                    TypedArg { ty: ValueType::Pointer(3), value: Arg::Shared(3) },
                    TypedArg { ty: ValueType::Pointer(1), value: in_global(spaces, 1) },
                    TypedArg { ty: ValueType::Integer(32), value: Arg::Operand(2) },
                    TypedArg { ty: ValueType::Integer(64), value: if cache_hint { operand_after(4, multicast, false) } else { Arg::I64(0) } },
                    TypedArg { ty: ValueType::Integer(1), value: Arg::I1(cache_hint) },
    ] + (if config.byte_mask {
        seq![TypedArg { ty: ValueType::Integer(16), value: operand_after(4, multicast, cache_hint) }]
    } else {
        seq![]
    })));
}

/// The inline `g2s_cta` operation: the state space of each address, and the
/// place of each operand.
pub proof fn g2s_cta_assembly_spells_the_copy(
    spaces: Seq<Option<u32>>,
    config: BulkConfig<'_>,
)
    requires
        config.direction@ == "g2s_cta"@,
        spaces.len() == 4 + extras(config),
    ensures
        bulk_outcome(spaces, 0, IntrinsicBackend::LibNvvm, config) matches Ok(plan) && takes_all(
            plan,
            spaces.len(),
        ) && (plan.emission matches EmissionView::InlineAsm { template, constraints, .. } && template
            == "{ .reg .u64 %bulk_dst; cvta.to.shared.u64 %bulk_dst, $0; .reg .u64 %bulk_src; cvta.to.global.u64 %bulk_src, $1; .reg .u64 %bulk_mbar; cvta.to.shared.u64 %bulk_mbar, $3; cp.async.bulk.shared::cta.global.mbarrier::complete_tx::bytes"@
            + extra_modifiers(config) + " "@ + "[%bulk_dst], [%bulk_src], $2, [%bulk_mbar]"@ + extra_operands(config, 4) + "; }"@
            && constraints == "l,l,r,l"@ + extra_constraints(config) + ",~{memory}"@),
{
    directions_have_names();
    let (m, h, k) = (config.multicast, config.cache_hint, config.byte_mask);
    let direction = BulkDirection::GlobalToCta;
    g2s_cta_setup();
    g2s_cta_operands(m, h, k);
    g2s_cta_constraints(m, h, k);
    extras_by_name(config, 4);
    regroup(
        "{ .reg .u64 %bulk_dst; cvta.to.shared.u64 %bulk_dst, $0; .reg .u64 %bulk_src; cvta.to.global.u64 %bulk_src, $1; .reg .u64 %bulk_mbar; cvta.to.shared.u64 %bulk_mbar, $3; cp.async.bulk.shared::cta.global.mbarrier::complete_tx::bytes"@ + extra_modifiers(config) + " "@,
        "[%bulk_dst], [%bulk_src], $2, [%bulk_mbar]"@,
        if m {
            ", "@ + ("$"@ + decimal(nat_after(4, false, false)))
        } else {
            seq![]
        },
        if h {
            ", "@ + ("$"@ + decimal(nat_after(4, m, false)))
        } else {
            seq![]
        },
        if k {
            ", "@ + ("$"@ + decimal(nat_after(4, m, h)))
        } else {
            seq![]
        },
    );
    regroup(
        seq![],
        "l,l,r,l"@,
        if m {
            ","@ + "h"@
        } else {
            seq![]
        },
        if h {
            ","@ + "l"@
        } else {
            seq![]
        },
        if k {
            ","@ + "h"@
        } else {
            seq![]
        },
    );
}

proof fn g2s_cta_setup()
    ensures
        "{"@ + bulk_setup(BulkDirection::GlobalToCta) + " "@ + BulkDirection::GlobalToCta.mnemonic()
            == "{ .reg .u64 %bulk_dst; cvta.to.shared.u64 %bulk_dst, $0; .reg .u64 %bulk_src; cvta.to.global.u64 %bulk_src, $1; .reg .u64 %bulk_mbar; cvta.to.shared.u64 %bulk_mbar, $3; cp.async.bulk.shared::cta.global.mbarrier::complete_tx::bytes"@,
{
    reveal_strlit("{ .reg .u64 %bulk_dst; cvta.to.shared.u64 %bulk_dst, $0; .reg .u64 %bulk_src; cvta.to.global.u64 %bulk_src, $1; .reg .u64 %bulk_mbar; cvta.to.shared.u64 %bulk_mbar, $3; cp.async.bulk.shared::cta.global.mbarrier::complete_tx::bytes");
    reveal_strlit("{");
    reveal_strlit(" ");
    reveal_strlit(";");
    reveal_strlit(".u64 %bulk_dst, $0;");
    reveal_strlit(".u64 %bulk_src, $");
    reveal_strlit(" .reg .u64 %bulk_dst; cvta.to.");
    reveal_strlit(" .reg .u64 %bulk_src; cvta.to.");
    reveal_strlit(" .reg .u64 %bulk_mbar; cvta.to.shared.u64 %bulk_mbar, $");
    reveal_strlit("cp.async.bulk.shared::cta.global.mbarrier::complete_tx::bytes");
    reveal_strlit("global");
    reveal_strlit("0");
    reveal_strlit("1");
    reveal_strlit("3");
    reveal_strlit("shared");
    digits_by_name();
    assert("{"@ + bulk_setup(BulkDirection::GlobalToCta) + " "@ + BulkDirection::GlobalToCta.mnemonic()
        =~= "{ .reg .u64 %bulk_dst; cvta.to.shared.u64 %bulk_dst, $0; .reg .u64 %bulk_src; cvta.to.global.u64 %bulk_src, $1; .reg .u64 %bulk_mbar; cvta.to.shared.u64 %bulk_mbar, $3; cp.async.bulk.shared::cta.global.mbarrier::complete_tx::bytes"@);
}

proof fn g2s_cta_operands(m: bool, h: bool, k: bool)
    ensures
        joined(bulk_instruction_operands(BulkDirection::GlobalToCta, m, h, k), ", "@)
            == "[%bulk_dst], [%bulk_src], $2, [%bulk_mbar]"@ + (if m {
            ", "@ + ("$"@ + decimal(nat_after(4, false, false)))
        } else {
            seq![]
        }) + (if h {
            ", "@ + ("$"@ + decimal(nat_after(4, m, false)))
        } else {
            seq![]
        }) + (if k {
            ", "@ + ("$"@ + decimal(nat_after(4, m, h)))
        } else {
            seq![]
        }),
{
    digits_by_name();
    let base = seq!["[%bulk_dst]"@, "[%bulk_src]"@, "$2"@, "[%bulk_mbar]"@];
    assert(base[2] =~= "$"@ + decimal(2)) by {
        reveal_strlit("$");
        reveal_strlit("2");
        reveal_strlit("$2");
    }
    let first = nat_after(4, false, false);
    let second = nat_after(4, m, false);
    let third = nat_after(4, m, h);
    assert(bulk_instruction_operands(BulkDirection::GlobalToCta, m, h, k) =~= base + text_if(
        m,
        "$"@ + decimal(first),
    ) + text_if(h, "$"@ + decimal(second)) + text_if(k, "$"@ + decimal(third)));
    join_with_options(
        base,
        ", "@,
        m,
        "$"@ + decimal(first),
        h,
        "$"@ + decimal(second),
        k,
        "$"@ + decimal(third),
    );
    spelled_4(base, ", "@);
    assert(joined(base, ", "@) =~= "[%bulk_dst], [%bulk_src], $2, [%bulk_mbar]"@) by {
        reveal_strlit(", ");
        reveal_strlit("[%bulk_dst], [%bulk_src], $2, [%bulk_mbar]");
        reveal_strlit("[%bulk_dst]");
        reveal_strlit("[%bulk_src]");
        reveal_strlit("$2");
        reveal_strlit("[%bulk_mbar]");
    }
}

proof fn g2s_cta_constraints(m: bool, h: bool, k: bool)
    ensures
        joined(bulk_constraints(BulkDirection::GlobalToCta, m, h, k), ","@) == "l,l,r,l"@ + (if m {
            ","@ + "h"@
        } else {
            seq![]
        }) + (if h {
            ","@ + "l"@
        } else {
            seq![]
        }) + (if k {
            ","@ + "h"@
        } else {
            seq![]
        }) + (","@ + "~{memory}"@),
{
    let base = seq!["l"@, "l"@, "r"@, "l"@];
    let kept = base + text_if(m, "h"@) + text_if(h, "l"@) + text_if(k, "h"@);
    assert(bulk_constraints(BulkDirection::GlobalToCta, m, h, k) =~= kept + text_if(
        true,
        "~{memory}"@,
    ));
    join_with_options(base, ","@, m, "h"@, h, "l"@, k, "h"@);
    join_with_option(kept, ","@, true, "~{memory}"@);
    spelled_4(base, ","@);
    assert(joined(base, ","@) =~= "l,l,r,l"@) by {
        reveal_strlit(",");
        reveal_strlit("l,l,r,l");
        reveal_strlit("l");
        reveal_strlit("r");
    }
}

/// The typed `cta_to_cluster` operation: where each argument comes from.
pub proof fn cta_to_cluster_call_passes_each_operand(
    spaces: Seq<Option<u32>>,
    config: BulkConfig<'_>,
)
    requires
        config.direction@ == "cta_to_cluster"@,
        spaces.len() == 4 + extras(config),
    ensures
        ({
            let multicast = config.multicast;
            let cache_hint = config.cache_hint;
            bulk_outcome(spaces, 0, IntrinsicBackend::LlvmNvptx, config) matches Ok(plan)
                && plan.first is None && (plan.emission matches EmissionView::Call {
                symbol,
                arguments,
            } && symbol == config.intrinsic_name@ && arguments == (seq![
                    TypedArg { ty: ValueType::Pointer(7), value: Arg::Cluster(0) },
                    TypedArg { ty: ValueType::Pointer(3), value: Arg::Shared(3) },
                    TypedArg { ty: ValueType::Pointer(3), value: Arg::Shared(1) },
                    TypedArg { ty: ValueType::Integer(32), value: Arg::Operand(2) },
            ] + (if config.byte_mask {
                seq![TypedArg { ty: ValueType::Integer(16), value: operand_after(4, multicast, cache_hint) }]
            } else {
                seq![]
            })))
        }),
{
    directions_have_names();
    let arguments = bulk_arguments(
        spaces,
        BulkDirection::CtaToCluster,
        config.multicast,
        config.cache_hint,
        config.byte_mask,
    );
    let multicast = config.multicast;
    let cache_hint = config.cache_hint;
    assert(arguments =~= (seq![
                    TypedArg { ty: ValueType::Pointer(7), value: Arg::Cluster(0) },
                    TypedArg { ty: ValueType::Pointer(3), value: Arg::Shared(3) },
                    TypedArg { ty: ValueType::Pointer(3), value: Arg::Shared(1) },
                    TypedArg { ty: ValueType::Integer(32), value: Arg::Operand(2) },
    ] + (if config.byte_mask {
        seq![TypedArg { ty: ValueType::Integer(16), value: operand_after(4, multicast, cache_hint) }]
    } else {
        seq![]
    })));
}

/// The inline `cta_to_cluster` operation: the state space of each address, and the
/// place of each operand.
pub proof fn cta_to_cluster_assembly_spells_the_copy(
    spaces: Seq<Option<u32>>,
    config: BulkConfig<'_>,
)
    requires
        config.direction@ == "cta_to_cluster"@,
        spaces.len() == 4 + extras(config),
    ensures
        bulk_outcome(spaces, 0, IntrinsicBackend::LibNvvm, config) matches Ok(plan) && takes_all(
            plan,
            spaces.len(),
        ) && (plan.emission matches EmissionView::InlineAsm { template, constraints, .. } && template
            == "{ .reg .u64 %bulk_dst; cvta.to.shared::cluster.u64 %bulk_dst, $0; .reg .u64 %bulk_src; cvta.to.shared.u64 %bulk_src, $1; .reg .u64 %bulk_mbar; cvta.to.shared.u64 %bulk_mbar, $3; cp.async.bulk.shared::cluster.shared::cta.mbarrier::complete_tx::bytes"@
            + extra_modifiers(config) + " "@ + "[%bulk_dst], [%bulk_src], $2, [%bulk_mbar]"@ + extra_operands(config, 4) + "; }"@
            && constraints == "l,l,r,l"@ + extra_constraints(config) + ",~{memory}"@),
{
    directions_have_names();
    let (m, h, k) = (config.multicast, config.cache_hint, config.byte_mask);
    let direction = BulkDirection::CtaToCluster;
    cta_to_cluster_setup();
    cta_to_cluster_operands(m, h, k);
    cta_to_cluster_constraints(m, h, k);
    extras_by_name(config, 4);
    regroup(
        "{ .reg .u64 %bulk_dst; cvta.to.shared::cluster.u64 %bulk_dst, $0; .reg .u64 %bulk_src; cvta.to.shared.u64 %bulk_src, $1; .reg .u64 %bulk_mbar; cvta.to.shared.u64 %bulk_mbar, $3; cp.async.bulk.shared::cluster.shared::cta.mbarrier::complete_tx::bytes"@ + extra_modifiers(config) + " "@,
        "[%bulk_dst], [%bulk_src], $2, [%bulk_mbar]"@,
        if m {
            ", "@ + ("$"@ + decimal(nat_after(4, false, false)))
        } else {
            seq![]
        },
        if h {
            ", "@ + ("$"@ + decimal(nat_after(4, m, false)))
        } else {
            seq![]
        },
        if k {
            ", "@ + ("$"@ + decimal(nat_after(4, m, h)))
        } else {
            seq![]
        },
    );
    regroup(
        seq![],
        "l,l,r,l"@,
        if m {
            ","@ + "h"@
        } else {
            seq![]
        },
        if h {
            ","@ + "l"@
        } else {
            seq![]
        },
        if k {
            ","@ + "h"@
        } else {
            seq![]
        },
    );
}

proof fn cta_to_cluster_setup()
    ensures
        "{"@ + bulk_setup(BulkDirection::CtaToCluster) + " "@ + BulkDirection::CtaToCluster.mnemonic()
            == "{ .reg .u64 %bulk_dst; cvta.to.shared::cluster.u64 %bulk_dst, $0; .reg .u64 %bulk_src; cvta.to.shared.u64 %bulk_src, $1; .reg .u64 %bulk_mbar; cvta.to.shared.u64 %bulk_mbar, $3; cp.async.bulk.shared::cluster.shared::cta.mbarrier::complete_tx::bytes"@,
{
    reveal_strlit("{ .reg .u64 %bulk_dst; cvta.to.shared::cluster.u64 %bulk_dst, $0; .reg .u64 %bulk_src; cvta.to.shared.u64 %bulk_src, $1; .reg .u64 %bulk_mbar; cvta.to.shared.u64 %bulk_mbar, $3; cp.async.bulk.shared::cluster.shared::cta.mbarrier::complete_tx::bytes");
    reveal_strlit("{");
    reveal_strlit(" ");
    reveal_strlit(";");
    reveal_strlit(".u64 %bulk_dst, $0;");
    reveal_strlit(".u64 %bulk_src, $");
    reveal_strlit(" .reg .u64 %bulk_dst; cvta.to.");
    reveal_strlit(" .reg .u64 %bulk_src; cvta.to.");
    reveal_strlit(" .reg .u64 %bulk_mbar; cvta.to.shared.u64 %bulk_mbar, $");
    reveal_strlit("cp.async.bulk.shared::cluster.shared::cta.mbarrier::complete_tx::bytes");
    reveal_strlit("shared");
    reveal_strlit("0");
    reveal_strlit("1");
    reveal_strlit("3");
    reveal_strlit("shared::cluster");
    digits_by_name();
    assert("{"@ + bulk_setup(BulkDirection::CtaToCluster) + " "@ + BulkDirection::CtaToCluster.mnemonic()
        =~= "{ .reg .u64 %bulk_dst; cvta.to.shared::cluster.u64 %bulk_dst, $0; .reg .u64 %bulk_src; cvta.to.shared.u64 %bulk_src, $1; .reg .u64 %bulk_mbar; cvta.to.shared.u64 %bulk_mbar, $3; cp.async.bulk.shared::cluster.shared::cta.mbarrier::complete_tx::bytes"@);
}

proof fn cta_to_cluster_operands(m: bool, h: bool, k: bool)
    ensures
        joined(bulk_instruction_operands(BulkDirection::CtaToCluster, m, h, k), ", "@)
            == "[%bulk_dst], [%bulk_src], $2, [%bulk_mbar]"@ + (if m {
            ", "@ + ("$"@ + decimal(nat_after(4, false, false)))
        } else {
            seq![]
        }) + (if h {
            ", "@ + ("$"@ + decimal(nat_after(4, m, false)))
        } else {
            seq![]
        }) + (if k {
            ", "@ + ("$"@ + decimal(nat_after(4, m, h)))
        } else {
            seq![]
        }),
{
    digits_by_name();
    let base = seq!["[%bulk_dst]"@, "[%bulk_src]"@, "$2"@, "[%bulk_mbar]"@];
    assert(base[2] =~= "$"@ + decimal(2)) by {
        reveal_strlit("$");
        reveal_strlit("2");
        reveal_strlit("$2");
    }
    let first = nat_after(4, false, false);
    let second = nat_after(4, m, false);
    let third = nat_after(4, m, h);
    assert(bulk_instruction_operands(BulkDirection::CtaToCluster, m, h, k) =~= base + text_if(
        m,
        "$"@ + decimal(first),
    ) + text_if(h, "$"@ + decimal(second)) + text_if(k, "$"@ + decimal(third)));
    join_with_options(
        base,
        ", "@,
        m,
        "$"@ + decimal(first),
        h,
        "$"@ + decimal(second),
        k,
        "$"@ + decimal(third),
    );
    spelled_4(base, ", "@);
    assert(joined(base, ", "@) =~= "[%bulk_dst], [%bulk_src], $2, [%bulk_mbar]"@) by {
        reveal_strlit(", ");
        reveal_strlit("[%bulk_dst], [%bulk_src], $2, [%bulk_mbar]");
        reveal_strlit("[%bulk_dst]");
        reveal_strlit("[%bulk_src]");
        reveal_strlit("$2");
        reveal_strlit("[%bulk_mbar]");
    }
}

proof fn cta_to_cluster_constraints(m: bool, h: bool, k: bool)
    ensures
        joined(bulk_constraints(BulkDirection::CtaToCluster, m, h, k), ","@) == "l,l,r,l"@ + (if m {
            ","@ + "h"@
        } else {
            seq![]
        }) + (if h {
            ","@ + "l"@
        } else {
            seq![]
        }) + (if k {
            ","@ + "h"@
        } else {
            seq![]
        }) + (","@ + "~{memory}"@),
{
    let base = seq!["l"@, "l"@, "r"@, "l"@];
    let kept = base + text_if(m, "h"@) + text_if(h, "l"@) + text_if(k, "h"@);
    assert(bulk_constraints(BulkDirection::CtaToCluster, m, h, k) =~= kept + text_if(
        true,
        "~{memory}"@,
    ));
    join_with_options(base, ","@, m, "h"@, h, "l"@, k, "h"@);
    join_with_option(kept, ","@, true, "~{memory}"@);
    spelled_4(base, ","@);
    assert(joined(base, ","@) =~= "l,l,r,l"@) by {
        reveal_strlit(",");
        reveal_strlit("l,l,r,l");
        reveal_strlit("l");
        reveal_strlit("r");
    }
}

/// The typed `s2g` operation: where each argument comes from.
pub proof fn s2g_call_passes_each_operand(
    spaces: Seq<Option<u32>>,
    config: BulkConfig<'_>,
)
    requires
        config.direction@ == "s2g"@,
        spaces.len() == 3 + extras(config),
    ensures
        ({
            let multicast = config.multicast;
            let cache_hint = config.cache_hint;
            bulk_outcome(spaces, 0, IntrinsicBackend::LlvmNvptx, config) matches Ok(plan)
                && plan.first is None && (plan.emission matches EmissionView::Call {
                symbol,
                arguments,
            } && symbol == config.intrinsic_name@ && arguments == (seq![
                    TypedArg { ty: ValueType::Pointer(1), value: in_global(spaces, 0) },
                    TypedArg { ty: ValueType::Pointer(3), value: Arg::Shared(1) },
                    TypedArg { ty: ValueType::Integer(32), value: Arg::Operand(2) },
                    TypedArg { ty: ValueType::Integer(64), value: if cache_hint { operand_after(3, multicast, false) } else { Arg::I64(0) } },
                    TypedArg { ty: ValueType::Integer(1), value: Arg::I1(cache_hint) },
            ] + (if config.byte_mask {
                seq![TypedArg { ty: ValueType::Integer(16), value: operand_after(3, multicast, cache_hint) }]
            } else {
                seq![]
            })))
        }),
{
    directions_have_names();
    let arguments = bulk_arguments(
        spaces,
        BulkDirection::SharedToGlobal,
        config.multicast,
        config.cache_hint,
        config.byte_mask,
    );
    let multicast = config.multicast;
    let cache_hint = config.cache_hint;
    assert(arguments =~= (seq![
                    TypedArg { ty: ValueType::Pointer(1), value: in_global(spaces, 0) },
                    TypedArg { ty: ValueType::Pointer(3), value: Arg::Shared(1) },
                    TypedArg { ty: ValueType::Integer(32), value: Arg::Operand(2) },
                    TypedArg { ty: ValueType::Integer(64), value: if cache_hint { operand_after(3, multicast, false) } else { Arg::I64(0) } },
                    TypedArg { ty: ValueType::Integer(1), value: Arg::I1(cache_hint) },
    ] + (if config.byte_mask {
        seq![TypedArg { ty: ValueType::Integer(16), value: operand_after(3, multicast, cache_hint) }]
    } else {
        seq![]
    })));
}

/// The inline `s2g` operation: the state space of each address, and the
/// place of each operand.
pub proof fn s2g_assembly_spells_the_copy(
    spaces: Seq<Option<u32>>,
    config: BulkConfig<'_>,
)
    requires
        config.direction@ == "s2g"@,
        spaces.len() == 3 + extras(config),
    ensures
        bulk_outcome(spaces, 0, IntrinsicBackend::LibNvvm, config) matches Ok(plan) && takes_all(
            plan,
            spaces.len(),
        ) && (plan.emission matches EmissionView::InlineAsm { template, constraints, .. } && template
            == "{ .reg .u64 %bulk_dst; cvta.to.global.u64 %bulk_dst, $0; .reg .u64 %bulk_src; cvta.to.shared.u64 %bulk_src, $1; cp.async.bulk.global.shared::cta.bulk_group"@
            + extra_modifiers(config) + " "@ + "[%bulk_dst], [%bulk_src], $2"@ + extra_operands(config, 3) + "; }"@
            && constraints == "l,l,r"@ + extra_constraints(config) + ",~{memory}"@),
{
    directions_have_names();
    let (m, h, k) = (config.multicast, config.cache_hint, config.byte_mask);
    let direction = BulkDirection::SharedToGlobal;
    s2g_setup();
    s2g_operands(m, h, k);
    s2g_constraints(m, h, k);
    extras_by_name(config, 3);
    regroup(
        "{ .reg .u64 %bulk_dst; cvta.to.global.u64 %bulk_dst, $0; .reg .u64 %bulk_src; cvta.to.shared.u64 %bulk_src, $1; cp.async.bulk.global.shared::cta.bulk_group"@ + extra_modifiers(config) + " "@,
        "[%bulk_dst], [%bulk_src], $2"@,
        if m {
            ", "@ + ("$"@ + decimal(nat_after(3, false, false)))
        } else {
            seq![]
        },
        if h {
            ", "@ + ("$"@ + decimal(nat_after(3, m, false)))
        } else {
            seq![]
        },
        if k {
            ", "@ + ("$"@ + decimal(nat_after(3, m, h)))
        } else {
            seq![]
        },
    );
    regroup(
        seq![],
        "l,l,r"@,
        if m {
            ","@ + "h"@
        } else {
            seq![]
        },
        if h {
            ","@ + "l"@
        } else {
            seq![]
        },
        if k {
            ","@ + "h"@
        } else {
            seq![]
        },
    );
}

proof fn s2g_setup()
    ensures
        "{"@ + bulk_setup(BulkDirection::SharedToGlobal) + " "@ + BulkDirection::SharedToGlobal.mnemonic()
            == "{ .reg .u64 %bulk_dst; cvta.to.global.u64 %bulk_dst, $0; .reg .u64 %bulk_src; cvta.to.shared.u64 %bulk_src, $1; cp.async.bulk.global.shared::cta.bulk_group"@,
{
    reveal_strlit("{ .reg .u64 %bulk_dst; cvta.to.global.u64 %bulk_dst, $0; .reg .u64 %bulk_src; cvta.to.shared.u64 %bulk_src, $1; cp.async.bulk.global.shared::cta.bulk_group");
    reveal_strlit("{");
    reveal_strlit(" ");
    reveal_strlit(";");
    reveal_strlit(".u64 %bulk_dst, $0;");
    reveal_strlit(".u64 %bulk_src, $");
    reveal_strlit(" .reg .u64 %bulk_dst; cvta.to.");
    reveal_strlit(" .reg .u64 %bulk_src; cvta.to.");
    reveal_strlit(" .reg .u64 %bulk_mbar; cvta.to.shared.u64 %bulk_mbar, $");
    reveal_strlit("cp.async.bulk.global.shared::cta.bulk_group");
    reveal_strlit("shared");
    reveal_strlit("0");
    reveal_strlit("1");
    reveal_strlit("3");
    reveal_strlit("global");
    digits_by_name();
    assert("{"@ + bulk_setup(BulkDirection::SharedToGlobal) + " "@ + BulkDirection::SharedToGlobal.mnemonic()
        =~= "{ .reg .u64 %bulk_dst; cvta.to.global.u64 %bulk_dst, $0; .reg .u64 %bulk_src; cvta.to.shared.u64 %bulk_src, $1; cp.async.bulk.global.shared::cta.bulk_group"@);
}

proof fn s2g_operands(m: bool, h: bool, k: bool)
    ensures
        joined(bulk_instruction_operands(BulkDirection::SharedToGlobal, m, h, k), ", "@)
            == "[%bulk_dst], [%bulk_src], $2"@ + (if m {
            ", "@ + ("$"@ + decimal(nat_after(3, false, false)))
        } else {
            seq![]
        }) + (if h {
            ", "@ + ("$"@ + decimal(nat_after(3, m, false)))
        } else {
            seq![]
        }) + (if k {
            ", "@ + ("$"@ + decimal(nat_after(3, m, h)))
        } else {
            seq![]
        }),
{
    digits_by_name();
    let base = seq!["[%bulk_dst]"@, "[%bulk_src]"@, "$2"@];
    assert(base[2] =~= "$"@ + decimal(2)) by {
        reveal_strlit("$");
        reveal_strlit("2");
        reveal_strlit("$2");
    }
    let first = nat_after(3, false, false);
    let second = nat_after(3, m, false);
    let third = nat_after(3, m, h);
    assert(bulk_instruction_operands(BulkDirection::SharedToGlobal, m, h, k) =~= base + text_if(
        m,
        "$"@ + decimal(first),
    ) + text_if(h, "$"@ + decimal(second)) + text_if(k, "$"@ + decimal(third)));
    join_with_options(
        base,
        ", "@,
        m,
        "$"@ + decimal(first),
        h,
        "$"@ + decimal(second),
        k,
        "$"@ + decimal(third),
    );
    spelled_3(base, ", "@);
    assert(joined(base, ", "@) =~= "[%bulk_dst], [%bulk_src], $2"@) by {
        reveal_strlit(", ");
        reveal_strlit("[%bulk_dst], [%bulk_src], $2");
        reveal_strlit("[%bulk_dst]");
        reveal_strlit("[%bulk_src]");
        reveal_strlit("$2");
    }
}

proof fn s2g_constraints(m: bool, h: bool, k: bool)
    ensures
        joined(bulk_constraints(BulkDirection::SharedToGlobal, m, h, k), ","@) == "l,l,r"@ + (if m {
            ","@ + "h"@
        } else {
            seq![]
        }) + (if h {
            ","@ + "l"@
        } else {
            seq![]
        }) + (if k {
            ","@ + "h"@
        } else {
            seq![]
        }) + (","@ + "~{memory}"@),
{
    let base = seq!["l"@, "l"@, "r"@];
    let kept = base + text_if(m, "h"@) + text_if(h, "l"@) + text_if(k, "h"@);
    assert(bulk_constraints(BulkDirection::SharedToGlobal, m, h, k) =~= kept + text_if(
        true,
        "~{memory}"@,
    ));
    join_with_options(base, ","@, m, "h"@, h, "l"@, k, "h"@);
    join_with_option(kept, ","@, true, "~{memory}"@);
    spelled_3(base, ","@);
    assert(joined(base, ","@) =~= "l,l,r"@) by {
        reveal_strlit(",");
        reveal_strlit("l,l,r");
        reveal_strlit("l");
        reveal_strlit("r");
    }
}

/// The typed `prefetch` operation: where each argument comes from.
pub proof fn prefetch_call_passes_each_operand(
    spaces: Seq<Option<u32>>,
    config: BulkConfig<'_>,
)
    requires
        config.direction@ == "prefetch"@,
        spaces.len() == 2 + extras(config),
    ensures
        ({
            let multicast = config.multicast;
            let cache_hint = config.cache_hint;
            bulk_outcome(spaces, 0, IntrinsicBackend::LlvmNvptx, config) matches Ok(plan)
                && plan.first is None && (plan.emission matches EmissionView::Call {
                symbol,
                arguments,
            } && symbol == config.intrinsic_name@ && arguments == (seq![
                    TypedArg { ty: ValueType::Pointer(1), value: in_global(spaces, 0) },
                    TypedArg { ty: ValueType::Integer(32), value: Arg::Operand(1) },
                    TypedArg { ty: ValueType::Integer(64), value: if cache_hint { operand_after(2, multicast, false) } else { Arg::I64(0) } },
                    TypedArg { ty: ValueType::Integer(1), value: Arg::I1(cache_hint) },
            ] + (if config.byte_mask {
                seq![TypedArg { ty: ValueType::Integer(16), value: operand_after(2, multicast, cache_hint) }]
            } else {
                seq![]
            })))
        }),
{
    directions_have_names();
    let arguments = bulk_arguments(
        spaces,
        BulkDirection::PrefetchL2,
        config.multicast,
        config.cache_hint,
        config.byte_mask,
    );
    let multicast = config.multicast;
    let cache_hint = config.cache_hint;
    assert(arguments =~= (seq![
                    TypedArg { ty: ValueType::Pointer(1), value: in_global(spaces, 0) },
                    TypedArg { ty: ValueType::Integer(32), value: Arg::Operand(1) },
                    TypedArg { ty: ValueType::Integer(64), value: if cache_hint { operand_after(2, multicast, false) } else { Arg::I64(0) } },
                    TypedArg { ty: ValueType::Integer(1), value: Arg::I1(cache_hint) },
    ] + (if config.byte_mask {
        seq![TypedArg { ty: ValueType::Integer(16), value: operand_after(2, multicast, cache_hint) }]
    } else {
        seq![]
    })));
}

/// The inline `prefetch` operation: the state space of each address, and the
/// place of each operand.
pub proof fn prefetch_assembly_spells_the_copy(
    spaces: Seq<Option<u32>>,
    config: BulkConfig<'_>,
)
    requires
        config.direction@ == "prefetch"@,
        spaces.len() == 2 + extras(config),
    ensures
        bulk_outcome(spaces, 0, IntrinsicBackend::LibNvvm, config) matches Ok(plan) && takes_all(
            plan,
            spaces.len(),
        ) && (plan.emission matches EmissionView::InlineAsm { template, constraints, .. } && template
            == "{ .reg .u64 %bulk_src; cvta.to.global.u64 %bulk_src, $0; cp.async.bulk.prefetch.L2.global"@
            + extra_modifiers(config) + " "@ + "[%bulk_src], $1"@ + extra_operands(config, 2) + "; }"@
            && constraints == "l,r"@ + extra_constraints(config) + ",~{memory}"@),
{
    directions_have_names();
    let (m, h, k) = (config.multicast, config.cache_hint, config.byte_mask);
    let direction = BulkDirection::PrefetchL2;
    prefetch_setup();
    prefetch_operands(m, h, k);
    prefetch_constraints(m, h, k);
    extras_by_name(config, 2);
    regroup(
        "{ .reg .u64 %bulk_src; cvta.to.global.u64 %bulk_src, $0; cp.async.bulk.prefetch.L2.global"@ + extra_modifiers(config) + " "@,
        "[%bulk_src], $1"@,
        if m {
            ", "@ + ("$"@ + decimal(nat_after(2, false, false)))
        } else {
            seq![]
        },
        if h {
            ", "@ + ("$"@ + decimal(nat_after(2, m, false)))
        } else {
            seq![]
        },
        if k {
            ", "@ + ("$"@ + decimal(nat_after(2, m, h)))
        } else {
            seq![]
        },
    );
    regroup(
        seq![],
        "l,r"@,
        if m {
            ","@ + "h"@
        } else {
            seq![]
        },
        if h {
            ","@ + "l"@
        } else {
            seq![]
        },
        if k {
            ","@ + "h"@
        } else {
            seq![]
        },
    );
}

proof fn prefetch_setup()
    ensures
        "{"@ + bulk_setup(BulkDirection::PrefetchL2) + " "@ + BulkDirection::PrefetchL2.mnemonic()
            == "{ .reg .u64 %bulk_src; cvta.to.global.u64 %bulk_src, $0; cp.async.bulk.prefetch.L2.global"@,
{
    reveal_strlit("{ .reg .u64 %bulk_src; cvta.to.global.u64 %bulk_src, $0; cp.async.bulk.prefetch.L2.global");
    reveal_strlit("{");
    reveal_strlit(" ");
    reveal_strlit(";");
    reveal_strlit(".u64 %bulk_dst, $0;");
    reveal_strlit(".u64 %bulk_src, $");
    reveal_strlit(" .reg .u64 %bulk_dst; cvta.to.");
    reveal_strlit(" .reg .u64 %bulk_src; cvta.to.");
    reveal_strlit(" .reg .u64 %bulk_mbar; cvta.to.shared.u64 %bulk_mbar, $");
    reveal_strlit("cp.async.bulk.prefetch.L2.global");
    reveal_strlit("global");
    reveal_strlit("0");
    reveal_strlit("1");
    reveal_strlit("3");
    digits_by_name();
    assert("{"@ + bulk_setup(BulkDirection::PrefetchL2) + " "@ + BulkDirection::PrefetchL2.mnemonic()
        =~= "{ .reg .u64 %bulk_src; cvta.to.global.u64 %bulk_src, $0; cp.async.bulk.prefetch.L2.global"@);
}

proof fn prefetch_operands(m: bool, h: bool, k: bool)
    ensures
        joined(bulk_instruction_operands(BulkDirection::PrefetchL2, m, h, k), ", "@)
            == "[%bulk_src], $1"@ + (if m {
            ", "@ + ("$"@ + decimal(nat_after(2, false, false)))
        } else {
            seq![]
        }) + (if h {
            ", "@ + ("$"@ + decimal(nat_after(2, m, false)))
        } else {
            seq![]
        }) + (if k {
            ", "@ + ("$"@ + decimal(nat_after(2, m, h)))
        } else {
            seq![]
        }),
{
    digits_by_name();
    let base = seq!["[%bulk_src]"@, "$1"@];
    assert(base[1] =~= "$"@ + decimal(1)) by {
        reveal_strlit("$");
        reveal_strlit("1");
        reveal_strlit("$1");
    }
    let first = nat_after(2, false, false);
    let second = nat_after(2, m, false);
    let third = nat_after(2, m, h);
    assert(bulk_instruction_operands(BulkDirection::PrefetchL2, m, h, k) =~= base + text_if(
        m,
        "$"@ + decimal(first),
    ) + text_if(h, "$"@ + decimal(second)) + text_if(k, "$"@ + decimal(third)));
    join_with_options(
        base,
        ", "@,
        m,
        "$"@ + decimal(first),
        h,
        "$"@ + decimal(second),
        k,
        "$"@ + decimal(third),
    );
    spelled_2(base, ", "@);
    assert(joined(base, ", "@) =~= "[%bulk_src], $1"@) by {
        reveal_strlit(", ");
        reveal_strlit("[%bulk_src], $1");
        reveal_strlit("[%bulk_src]");
        reveal_strlit("$1");
    }
}

proof fn prefetch_constraints(m: bool, h: bool, k: bool)
    ensures
        joined(bulk_constraints(BulkDirection::PrefetchL2, m, h, k), ","@) == "l,r"@ + (if m {
            ","@ + "h"@
        } else {
            seq![]
        }) + (if h {
            ","@ + "l"@
        } else {
            seq![]
        }) + (if k {
            ","@ + "h"@
        } else {
            seq![]
        }) + (","@ + "~{memory}"@),
{
    let base = seq!["l"@, "r"@];
    let kept = base + text_if(m, "h"@) + text_if(h, "l"@) + text_if(k, "h"@);
    assert(bulk_constraints(BulkDirection::PrefetchL2, m, h, k) =~= kept + text_if(
        true,
        "~{memory}"@,
    ));
    join_with_options(base, ","@, m, "h"@, h, "l"@, k, "h"@);
    join_with_option(kept, ","@, true, "~{memory}"@);
    spelled_2(base, ","@);
    assert(joined(base, ","@) =~= "l,r"@) by {
        reveal_strlit(",");
        reveal_strlit("l,r");
        reveal_strlit("l");
        reveal_strlit("r");
    }
}

proof fn g2s_cluster_names_its_spaces()
    ensures
        occurs_in("cvta.to.global.u64 %bulk_src"@, "{ .reg .u64 %bulk_dst; cvta.to.shared::cluster.u64 %bulk_dst, $0; .reg .u64 %bulk_src; cvta.to.global.u64 %bulk_src, $1; .reg .u64 %bulk_mbar; cvta.to.shared.u64 %bulk_mbar, $3; cp.async.bulk.shared::cluster.global.mbarrier::complete_tx::bytes"@),
        occurs_in("cvta.to.shared::cluster.u64 %bulk_dst"@, "{ .reg .u64 %bulk_dst; cvta.to.shared::cluster.u64 %bulk_dst, $0; .reg .u64 %bulk_src; cvta.to.global.u64 %bulk_src, $1; .reg .u64 %bulk_mbar; cvta.to.shared.u64 %bulk_mbar, $3; cp.async.bulk.shared::cluster.global.mbarrier::complete_tx::bytes"@),
{
    let setup = "{ .reg .u64 %bulk_dst; cvta.to.shared::cluster.u64 %bulk_dst, $0; .reg .u64 %bulk_src; cvta.to.global.u64 %bulk_src, $1; .reg .u64 %bulk_mbar; cvta.to.shared.u64 %bulk_mbar, $3; cp.async.bulk.shared::cluster.global.mbarrier::complete_tx::bytes"@;
    reveal_strlit("{ .reg .u64 %bulk_dst; cvta.to.shared::cluster.u64 %bulk_dst, $0; .reg .u64 %bulk_src; cvta.to.global.u64 %bulk_src, $1; .reg .u64 %bulk_mbar; cvta.to.shared.u64 %bulk_mbar, $3; cp.async.bulk.shared::cluster.global.mbarrier::complete_tx::bytes");
    reveal_strlit("cvta.to.global.u64 %bulk_src");
    let at: int = 87;
    assert("cvta.to.global.u64 %bulk_src"@ =~= setup.subrange(at, at + "cvta.to.global.u64 %bulk_src"@.len()));
    reveal_strlit("cvta.to.shared::cluster.u64 %bulk_dst");
    let at: int = 23;
    assert("cvta.to.shared::cluster.u64 %bulk_dst"@ =~= setup.subrange(at, at + "cvta.to.shared::cluster.u64 %bulk_dst"@.len()));
}

proof fn g2s_cta_names_its_spaces()
    ensures
        occurs_in("cvta.to.global.u64 %bulk_src"@, "{ .reg .u64 %bulk_dst; cvta.to.shared.u64 %bulk_dst, $0; .reg .u64 %bulk_src; cvta.to.global.u64 %bulk_src, $1; .reg .u64 %bulk_mbar; cvta.to.shared.u64 %bulk_mbar, $3; cp.async.bulk.shared::cta.global.mbarrier::complete_tx::bytes"@),
        occurs_in("cvta.to.shared.u64 %bulk_dst"@, "{ .reg .u64 %bulk_dst; cvta.to.shared.u64 %bulk_dst, $0; .reg .u64 %bulk_src; cvta.to.global.u64 %bulk_src, $1; .reg .u64 %bulk_mbar; cvta.to.shared.u64 %bulk_mbar, $3; cp.async.bulk.shared::cta.global.mbarrier::complete_tx::bytes"@),
{
    let setup = "{ .reg .u64 %bulk_dst; cvta.to.shared.u64 %bulk_dst, $0; .reg .u64 %bulk_src; cvta.to.global.u64 %bulk_src, $1; .reg .u64 %bulk_mbar; cvta.to.shared.u64 %bulk_mbar, $3; cp.async.bulk.shared::cta.global.mbarrier::complete_tx::bytes"@;
    reveal_strlit("{ .reg .u64 %bulk_dst; cvta.to.shared.u64 %bulk_dst, $0; .reg .u64 %bulk_src; cvta.to.global.u64 %bulk_src, $1; .reg .u64 %bulk_mbar; cvta.to.shared.u64 %bulk_mbar, $3; cp.async.bulk.shared::cta.global.mbarrier::complete_tx::bytes");
    reveal_strlit("cvta.to.global.u64 %bulk_src");
    let at: int = 78;
    assert("cvta.to.global.u64 %bulk_src"@ =~= setup.subrange(at, at + "cvta.to.global.u64 %bulk_src"@.len()));
    reveal_strlit("cvta.to.shared.u64 %bulk_dst");
    let at: int = 23;
    assert("cvta.to.shared.u64 %bulk_dst"@ =~= setup.subrange(at, at + "cvta.to.shared.u64 %bulk_dst"@.len()));
}

proof fn cta_to_cluster_names_its_spaces()
    ensures
        occurs_in("cvta.to.shared.u64 %bulk_src"@, "{ .reg .u64 %bulk_dst; cvta.to.shared::cluster.u64 %bulk_dst, $0; .reg .u64 %bulk_src; cvta.to.shared.u64 %bulk_src, $1; .reg .u64 %bulk_mbar; cvta.to.shared.u64 %bulk_mbar, $3; cp.async.bulk.shared::cluster.shared::cta.mbarrier::complete_tx::bytes"@),
        occurs_in("cvta.to.shared::cluster.u64 %bulk_dst"@, "{ .reg .u64 %bulk_dst; cvta.to.shared::cluster.u64 %bulk_dst, $0; .reg .u64 %bulk_src; cvta.to.shared.u64 %bulk_src, $1; .reg .u64 %bulk_mbar; cvta.to.shared.u64 %bulk_mbar, $3; cp.async.bulk.shared::cluster.shared::cta.mbarrier::complete_tx::bytes"@),
{
    let setup = "{ .reg .u64 %bulk_dst; cvta.to.shared::cluster.u64 %bulk_dst, $0; .reg .u64 %bulk_src; cvta.to.shared.u64 %bulk_src, $1; .reg .u64 %bulk_mbar; cvta.to.shared.u64 %bulk_mbar, $3; cp.async.bulk.shared::cluster.shared::cta.mbarrier::complete_tx::bytes"@;
    reveal_strlit("{ .reg .u64 %bulk_dst; cvta.to.shared::cluster.u64 %bulk_dst, $0; .reg .u64 %bulk_src; cvta.to.shared.u64 %bulk_src, $1; .reg .u64 %bulk_mbar; cvta.to.shared.u64 %bulk_mbar, $3; cp.async.bulk.shared::cluster.shared::cta.mbarrier::complete_tx::bytes");
    reveal_strlit("cvta.to.shared.u64 %bulk_src");
    let at: int = 87;
    assert("cvta.to.shared.u64 %bulk_src"@ =~= setup.subrange(at, at + "cvta.to.shared.u64 %bulk_src"@.len()));
    reveal_strlit("cvta.to.shared::cluster.u64 %bulk_dst");
    let at: int = 23;
    assert("cvta.to.shared::cluster.u64 %bulk_dst"@ =~= setup.subrange(at, at + "cvta.to.shared::cluster.u64 %bulk_dst"@.len()));
}

proof fn s2g_names_its_spaces()
    ensures
        occurs_in("cvta.to.shared.u64 %bulk_src"@, "{ .reg .u64 %bulk_dst; cvta.to.global.u64 %bulk_dst, $0; .reg .u64 %bulk_src; cvta.to.shared.u64 %bulk_src, $1; cp.async.bulk.global.shared::cta.bulk_group"@),
        occurs_in("cvta.to.global.u64 %bulk_dst"@, "{ .reg .u64 %bulk_dst; cvta.to.global.u64 %bulk_dst, $0; .reg .u64 %bulk_src; cvta.to.shared.u64 %bulk_src, $1; cp.async.bulk.global.shared::cta.bulk_group"@),
{
    let setup = "{ .reg .u64 %bulk_dst; cvta.to.global.u64 %bulk_dst, $0; .reg .u64 %bulk_src; cvta.to.shared.u64 %bulk_src, $1; cp.async.bulk.global.shared::cta.bulk_group"@;
    reveal_strlit("{ .reg .u64 %bulk_dst; cvta.to.global.u64 %bulk_dst, $0; .reg .u64 %bulk_src; cvta.to.shared.u64 %bulk_src, $1; cp.async.bulk.global.shared::cta.bulk_group");
    reveal_strlit("cvta.to.shared.u64 %bulk_src");
    let at: int = 78;
    assert("cvta.to.shared.u64 %bulk_src"@ =~= setup.subrange(at, at + "cvta.to.shared.u64 %bulk_src"@.len()));
    reveal_strlit("cvta.to.global.u64 %bulk_dst");
    let at: int = 23;
    assert("cvta.to.global.u64 %bulk_dst"@ =~= setup.subrange(at, at + "cvta.to.global.u64 %bulk_dst"@.len()));
}

proof fn prefetch_names_its_spaces()
    ensures
        occurs_in("cvta.to.global.u64 %bulk_src"@, "{ .reg .u64 %bulk_src; cvta.to.global.u64 %bulk_src, $0; cp.async.bulk.prefetch.L2.global"@),
{
    let setup = "{ .reg .u64 %bulk_src; cvta.to.global.u64 %bulk_src, $0; cp.async.bulk.prefetch.L2.global"@;
    reveal_strlit("{ .reg .u64 %bulk_src; cvta.to.global.u64 %bulk_src, $0; cp.async.bulk.prefetch.L2.global");
    reveal_strlit("cvta.to.global.u64 %bulk_src");
    let at: int = 23;
    assert("cvta.to.global.u64 %bulk_src"@ =~= setup.subrange(at, at + "cvta.to.global.u64 %bulk_src"@.len()));
}

/// Whether the call and the inline instruction of an operation address the same
/// memory.
pub open spec fn address_the_same_memory(
    spaces: Seq<Option<u32>>,
    config: BulkConfig<'_>,
) -> bool {
    let name = config.direction@;
    let global_source = name == "g2s_cluster"@ || name == "g2s_cta"@ || name == "prefetch"@;
    let at: int = if name == "prefetch"@ {
        0
    } else if name == "s2g"@ {
        1
    } else {
        2
    };
    let operand: usize = if name == "prefetch"@ {
        0
    } else {
        1
    };
    bulk_outcome(spaces, 0, IntrinsicBackend::LlvmNvptx, config) matches Ok(call)
        && bulk_outcome(spaces, 0, IntrinsicBackend::LibNvvm, config) matches Ok(text) && (
    call.emission matches EmissionView::Call { arguments, .. } && (
    text.emission matches EmissionView::InlineAsm { template, .. } && {
        &&& arguments[at].ty == ValueType::Pointer(1) <==> global_source
        &&& arguments[at].ty == ValueType::Pointer(3) <==> !global_source
        &&& global_source ==> arguments[at].value == in_global(spaces, operand)
        &&& !global_source ==> arguments[at].value == Arg::Shared(operand)
        &&& global_source ==> occurs_in("cvta.to.global.u64 %bulk_src"@, template)
        &&& !global_source ==> occurs_in("cvta.to.shared.u64 %bulk_src"@, template)
        &&& name == "g2s_cluster"@ || name == "cta_to_cluster"@ ==> arguments[0] == (
        TypedArg { ty: ValueType::Pointer(7), value: Arg::Cluster(0) }) && occurs_in(
            "cvta.to.shared::cluster.u64 %bulk_dst"@,
            template,
        )
        &&& name == "g2s_cta"@ ==> arguments[0] == (TypedArg {
            ty: ValueType::Pointer(3),
            value: Arg::Shared(0),
        }) && occurs_in("cvta.to.shared.u64 %bulk_dst"@, template)
        &&& name == "s2g"@ ==> arguments[0] == (TypedArg {
            ty: ValueType::Pointer(1),
            value: in_global(spaces, 0),
        }) && occurs_in("cvta.to.global.u64 %bulk_dst"@, template)
    }))
}

/// Both backends address the same memory: the source is global exactly for
/// `g2s_cluster`, `g2s_cta` and `prefetch`, and shared for the others; the
/// destination is the cluster's shared memory for `g2s_cluster` and
/// `cta_to_cluster`, shared memory for `g2s_cta`, and global for `s2g`.
pub proof fn bulk_backends_address_the_same_memory(
    spaces: Seq<Option<u32>>,
    config: BulkConfig<'_>,
)
    requires
        bulk_outcome(spaces, 0, IntrinsicBackend::LlvmNvptx, config) is Ok,
    ensures
        address_the_same_memory(spaces, config),
{
    directions_have_names();
    bulk_is_refused_by_name_and_count(spaces, 0, IntrinsicBackend::LlvmNvptx, config);
    let name = config.direction@;
    if name == "g2s_cluster"@ {
        g2s_cluster_same_memory(spaces, config);
    } else if name == "g2s_cta"@ {
        g2s_cta_same_memory(spaces, config);
    } else if name == "cta_to_cluster"@ {
        cta_to_cluster_same_memory(spaces, config);
    } else if name == "s2g"@ {
        s2g_same_memory(spaces, config);
    } else {
        prefetch_same_memory(spaces, config);
    }
}

proof fn g2s_cluster_same_memory(spaces: Seq<Option<u32>>, config: BulkConfig<'_>)
    requires
        config.direction@ == "g2s_cluster"@,
        spaces.len() == 4 + extras(config),
    ensures
        address_the_same_memory(spaces, config),
{
    directions_have_names();
    g2s_cluster_call_passes_each_operand(spaces, config);
    g2s_cluster_assembly_spells_the_copy(spaces, config);
    g2s_cluster_names_its_spaces();
    let template = (bulk_outcome(
        spaces,
        0,
        IntrinsicBackend::LibNvvm,
        config,
    )->Ok_0).emission->template;
    let head = "{ .reg .u64 %bulk_dst; cvta.to.shared::cluster.u64 %bulk_dst, $0; .reg .u64 %bulk_src; cvta.to.global.u64 %bulk_src, $1; .reg .u64 %bulk_mbar; cvta.to.shared.u64 %bulk_mbar, $3; cp.async.bulk.shared::cluster.global.mbarrier::complete_tx::bytes"@;
    within_head(
        "cvta.to.global.u64 %bulk_src"@,
        head,
        template,
        extra_modifiers(config),
        " "@,
        "[%bulk_dst], [%bulk_src], $2, [%bulk_mbar]"@,
        extra_operands(config, 4),
        "; }"@,
    );
    within_head(
        "cvta.to.shared::cluster.u64 %bulk_dst"@,
        head,
        template,
        extra_modifiers(config),
        " "@,
        "[%bulk_dst], [%bulk_src], $2, [%bulk_mbar]"@,
        extra_operands(config, 4),
        "; }"@,
    );
}

proof fn g2s_cta_same_memory(spaces: Seq<Option<u32>>, config: BulkConfig<'_>)
    requires
        config.direction@ == "g2s_cta"@,
        spaces.len() == 4 + extras(config),
    ensures
        address_the_same_memory(spaces, config),
{
    directions_have_names();
    g2s_cta_call_passes_each_operand(spaces, config);
    g2s_cta_assembly_spells_the_copy(spaces, config);
    g2s_cta_names_its_spaces();
    let template = (bulk_outcome(
        spaces,
        0,
        IntrinsicBackend::LibNvvm,
        config,
    )->Ok_0).emission->template;
    let head = "{ .reg .u64 %bulk_dst; cvta.to.shared.u64 %bulk_dst, $0; .reg .u64 %bulk_src; cvta.to.global.u64 %bulk_src, $1; .reg .u64 %bulk_mbar; cvta.to.shared.u64 %bulk_mbar, $3; cp.async.bulk.shared::cta.global.mbarrier::complete_tx::bytes"@;
    within_head(
        "cvta.to.global.u64 %bulk_src"@,
        head,
        template,
        extra_modifiers(config),
        " "@,
        "[%bulk_dst], [%bulk_src], $2, [%bulk_mbar]"@,
        extra_operands(config, 4),
        "; }"@,
    );
    within_head(
        "cvta.to.shared.u64 %bulk_dst"@,
        head,
        template,
        extra_modifiers(config),
        " "@,
        "[%bulk_dst], [%bulk_src], $2, [%bulk_mbar]"@,
        extra_operands(config, 4),
        "; }"@,
    );
}

proof fn cta_to_cluster_same_memory(spaces: Seq<Option<u32>>, config: BulkConfig<'_>)
    requires
        config.direction@ == "cta_to_cluster"@,
        spaces.len() == 4 + extras(config),
    ensures
        address_the_same_memory(spaces, config),
{
    directions_have_names();
    cta_to_cluster_call_passes_each_operand(spaces, config);
    cta_to_cluster_assembly_spells_the_copy(spaces, config);
    cta_to_cluster_names_its_spaces();
    let template = (bulk_outcome(
        spaces,
        0,
        IntrinsicBackend::LibNvvm,
        config,
    )->Ok_0).emission->template;
    let head = "{ .reg .u64 %bulk_dst; cvta.to.shared::cluster.u64 %bulk_dst, $0; .reg .u64 %bulk_src; cvta.to.shared.u64 %bulk_src, $1; .reg .u64 %bulk_mbar; cvta.to.shared.u64 %bulk_mbar, $3; cp.async.bulk.shared::cluster.shared::cta.mbarrier::complete_tx::bytes"@;
    within_head(
        "cvta.to.shared.u64 %bulk_src"@,
        head,
        template,
        extra_modifiers(config),
        " "@,
        "[%bulk_dst], [%bulk_src], $2, [%bulk_mbar]"@,
        extra_operands(config, 4),
        "; }"@,
    );
    within_head(
        "cvta.to.shared::cluster.u64 %bulk_dst"@,
        head,
        template,
        extra_modifiers(config),
        " "@,
        "[%bulk_dst], [%bulk_src], $2, [%bulk_mbar]"@,
        extra_operands(config, 4),
        "; }"@,
    );
}

proof fn s2g_same_memory(spaces: Seq<Option<u32>>, config: BulkConfig<'_>)
    requires
        config.direction@ == "s2g"@,
        spaces.len() == 3 + extras(config),
    ensures
        address_the_same_memory(spaces, config),
{
    directions_have_names();
    s2g_call_passes_each_operand(spaces, config);
    s2g_assembly_spells_the_copy(spaces, config);
    s2g_names_its_spaces();
    let template = (bulk_outcome(
        spaces,
        0,
        IntrinsicBackend::LibNvvm,
        config,
    )->Ok_0).emission->template;
    let head = "{ .reg .u64 %bulk_dst; cvta.to.global.u64 %bulk_dst, $0; .reg .u64 %bulk_src; cvta.to.shared.u64 %bulk_src, $1; cp.async.bulk.global.shared::cta.bulk_group"@;
    within_head(
        "cvta.to.shared.u64 %bulk_src"@,
        head,
        template,
        extra_modifiers(config),
        " "@,
        "[%bulk_dst], [%bulk_src], $2"@,
        extra_operands(config, 3),
        "; }"@,
    );
    within_head(
        "cvta.to.global.u64 %bulk_dst"@,
        head,
        template,
        extra_modifiers(config),
        " "@,
        "[%bulk_dst], [%bulk_src], $2"@,
        extra_operands(config, 3),
        "; }"@,
    );
}

proof fn prefetch_same_memory(spaces: Seq<Option<u32>>, config: BulkConfig<'_>)
    requires
        config.direction@ == "prefetch"@,
        spaces.len() == 2 + extras(config),
    ensures
        address_the_same_memory(spaces, config),
{
    directions_have_names();
    prefetch_call_passes_each_operand(spaces, config);
    prefetch_assembly_spells_the_copy(spaces, config);
    prefetch_names_its_spaces();
    let template = (bulk_outcome(
        spaces,
        0,
        IntrinsicBackend::LibNvvm,
        config,
    )->Ok_0).emission->template;
    let head = "{ .reg .u64 %bulk_src; cvta.to.global.u64 %bulk_src, $0; cp.async.bulk.prefetch.L2.global"@;
    within_head(
        "cvta.to.global.u64 %bulk_src"@,
        head,
        template,
        extra_modifiers(config),
        " "@,
        "[%bulk_src], $1"@,
        extra_operands(config, 2),
        "; }"@,
    );
}

proof fn within_head(
    part: Seq<char>,
    head: Seq<char>,
    whole: Seq<char>,
    a: Seq<char>,
    b: Seq<char>,
    c: Seq<char>,
    d: Seq<char>,
    e: Seq<char>,
)
    requires
        occurs_in(part, head),
        whole == head + a + b + c + d + e,
    ensures
        occurs_in(part, whole),
{
    occurs_in_extension(part, seq![], head, a + b + c + d + e);
    assert(whole =~= Seq::<char>::empty() + head + (a + b + c + d + e));
}

} // verus!
