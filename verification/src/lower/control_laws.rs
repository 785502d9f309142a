//! What the plans of tensor-map, group-control and policy operations do, and
//! how addresses and names are read.

use crate::lower::bulk::{direction_named, BulkDirection};
use crate::lower::cache_policy::cache_policy_outcome;
use crate::lower::symbol::is_identifier;
use crate::lower::tma::{
    control_outcome, replace_constraints, replace_template, tensormap_fence_outcome,
    tensormap_replace_outcome,
};
use crate::lower::{
    address_in, Arg, AsmKind, EmissionView, IntrinsicBackend, LoweringView, TypedArg, ValueType,
};
use crate::text::{decimal, joined};
use vstd::prelude::*;

verus! {

/// Whether a plan is inline assembly of a kind over all operands, in order,
/// without a result.
pub open spec fn emits(
    outcome: Result<LoweringView, Seq<char>>,
    wanted: AsmKind,
    operand_count: nat,
    text: Seq<char>,
    list: Seq<char>,
) -> bool {
    outcome matches Ok(plan) && plan.first is None && (
    plan.emission matches EmissionView::InlineAsm { kind, result, inputs, template, constraints }
        && kind == wanted && result is None && inputs.len() == operand_count && (forall|i: int|
        0 <= i < inputs.len() ==> #[trigger] inputs[i] == Arg::Operand(i as usize)) && template
        == text && constraints == list)
}

/// A tensor-map field is replaced with its width and its operands: 32 bits for
/// `u32`, 64 for `u64` and `address`; the ordinal, if there is one, and an
/// immediate value are immediates.
pub proof fn replacements_follow_the_kind(
    operand_count: nat,
    result_count: usize,
    field: Seq<char>,
    value_kind: Seq<char>,
    ordinal: bool,
    immediate: bool,
)
    ensures
        ({
            let outcome = tensormap_replace_outcome(
                operand_count,
                result_count,
                field,
                value_kind,
                ordinal,
                immediate,
            );
            let fits = (ordinal && operand_count == 3 || !ordinal && operand_count == 2)
                && result_count == 0;
            let narrow = value_kind == "u32"@;
            let wide = value_kind == "u64"@ || value_kind == "address"@;
            let head = "tensormap.replace.tile."@ + field + ".global.b1024."@;
            &&& !fits && ordinal ==> outcome == Err::<LoweringView, Seq<char>>(
                "tensormap.replace "@ + field + " requires "@ + decimal(3)
                    + " operand(s) and no results"@,
            )
            &&& !fits && !ordinal ==> outcome == Err::<LoweringView, Seq<char>>(
                "tensormap.replace "@ + field + " requires "@ + decimal(2)
                    + " operand(s) and no results"@,
            )
            &&& fits && !narrow && !wide ==> outcome == Err::<LoweringView, Seq<char>>(
                "unsupported tensor-map replacement value kind"@,
            )
            &&& fits && narrow && ordinal ==> emits(
                outcome,
                AsmKind::SideEffect,
                3,
                head + "b32 [$0], $1, $2;"@,
                if immediate {
                    "l,n,n,~{memory}"@
                } else {
                    "l,n,r,~{memory}"@
                },
            )
            &&& fits && narrow && !ordinal ==> emits(
                outcome,
                AsmKind::SideEffect,
                2,
                head + "b32 [$0], $1;"@,
                if immediate {
                    "l,n,~{memory}"@
                } else {
                    "l,r,~{memory}"@
                },
            )
            &&& fits && wide && ordinal ==> emits(
                outcome,
                AsmKind::SideEffect,
                3,
                head + "b64 [$0], $1, $2;"@,
                if immediate {
                    "l,n,n,~{memory}"@
                } else {
                    "l,n,l,~{memory}"@
                },
            )
            &&& fits && wide && !ordinal ==> emits(
                outcome,
                AsmKind::SideEffect,
                2,
                head + "b64 [$0], $1;"@,
                if immediate {
                    "l,n,~{memory}"@
                } else {
                    "l,l,~{memory}"@
                },
            )
        }),
{
    replacement_texts(field, ordinal);
    replacement_lists(ordinal, immediate);
    reveal_strlit("u32");
    reveal_strlit("u64");
    reveal_strlit("address");
    assert("u32"@[1] == '3' && "u64"@[1] == '6');
    assert("address"@.len() == 7 && "u32"@.len() == 3);
}

proof fn replacement_texts(field: Seq<char>, ordinal: bool)
    ensures
        ({
            let head = "tensormap.replace.tile."@ + field + ".global.b1024."@;
            let end = if ordinal {
                " [$0], $1, $2;"@
            } else {
                " [$0], $1;"@
            };
            &&& ordinal ==> replace_template(field, 32, true) == head + "b32 [$0], $1, $2;"@
                && replace_template(field, 64, true) == head + "b64 [$0], $1, $2;"@
            &&& !ordinal ==> replace_template(field, 32, false) == head + "b32 [$0], $1;"@
                && replace_template(field, 64, false) == head + "b64 [$0], $1;"@
        }),
{
    let head = "tensormap.replace.tile."@ + field + ".global.b1024."@;
    reveal_strlit("b32");
    reveal_strlit("b64");
    reveal_strlit(" [$0], $1, $2;");
    reveal_strlit(" [$0], $1;");
    reveal_strlit("b32 [$0], $1, $2;");
    reveal_strlit("b64 [$0], $1, $2;");
    reveal_strlit("b32 [$0], $1;");
    reveal_strlit("b64 [$0], $1;");
    assert(replace_template(field, 32, true) =~= head + "b32 [$0], $1, $2;"@);
    assert(replace_template(field, 64, true) =~= head + "b64 [$0], $1, $2;"@);
    assert(replace_template(field, 32, false) =~= head + "b32 [$0], $1;"@);
    assert(replace_template(field, 64, false) =~= head + "b64 [$0], $1;"@);
}

proof fn three(a: Seq<char>, b: Seq<char>, c: Seq<char>)
    ensures
        joined(seq![a, b, c], ","@) == a + ","@ + b + ","@ + c,
{
    let list = seq![a, b, c];
    assert(list.drop_last() =~= seq![a, b]);
    assert(list.drop_last().drop_last() =~= seq![a]);
    assert(joined(list.drop_last().drop_last(), ","@) == a);
    assert(joined(list.drop_last(), ","@) == a + ","@ + b);
}

proof fn four(a: Seq<char>, b: Seq<char>, c: Seq<char>, d: Seq<char>)
    ensures
        joined(seq![a, b, c, d], ","@) == a + ","@ + b + ","@ + c + ","@ + d,
{
    three(a, b, c);
    assert(seq![a, b, c, d].drop_last() =~= seq![a, b, c]);
}

proof fn replacement_lists(ordinal: bool, immediate: bool)
    ensures
        joined(replace_constraints(32, ordinal, immediate), ","@) == (if ordinal && immediate {
            "l,n,n,~{memory}"@
        } else if ordinal {
            "l,n,r,~{memory}"@
        } else if immediate {
            "l,n,~{memory}"@
        } else {
            "l,r,~{memory}"@
        }),
        joined(replace_constraints(64, ordinal, immediate), ","@) == (if ordinal && immediate {
            "l,n,n,~{memory}"@
        } else if ordinal {
            "l,n,l,~{memory}"@
        } else if immediate {
            "l,n,~{memory}"@
        } else {
            "l,l,~{memory}"@
        }),
{
    reveal_strlit("l");
    reveal_strlit("n");
    reveal_strlit("r");
    reveal_strlit(",");
    reveal_strlit("~{memory}");
    reveal_strlit("l,n,n,~{memory}");
    reveal_strlit("l,n,r,~{memory}");
    reveal_strlit("l,n,l,~{memory}");
    reveal_strlit("l,n,~{memory}");
    reveal_strlit("l,r,~{memory}");
    reveal_strlit("l,l,~{memory}");
    let clobber = "~{memory}"@;
    let narrow = if immediate {
        "n"@
    } else {
        "r"@
    };
    let wide = if immediate {
        "n"@
    } else {
        "l"@
    };
    if ordinal {
        assert(replace_constraints(32, ordinal, immediate) =~= seq!["l"@, "n"@, narrow, clobber]);
        assert(replace_constraints(64, ordinal, immediate) =~= seq!["l"@, "n"@, wide, clobber]);
        four("l"@, "n"@, narrow, clobber);
        four("l"@, "n"@, wide, clobber);
        assert("l,n,n,~{memory}"@ =~= "l"@ + ","@ + "n"@ + ","@ + "n"@ + ","@ + clobber);
        assert("l,n,r,~{memory}"@ =~= "l"@ + ","@ + "n"@ + ","@ + "r"@ + ","@ + clobber);
        assert("l,n,l,~{memory}"@ =~= "l"@ + ","@ + "n"@ + ","@ + "l"@ + ","@ + clobber);
    } else {
        assert(replace_constraints(32, ordinal, immediate) =~= seq!["l"@, narrow, clobber]);
        assert(replace_constraints(64, ordinal, immediate) =~= seq!["l"@, wide, clobber]);
        three("l"@, narrow, clobber);
        three("l"@, wide, clobber);
        assert("l,n,~{memory}"@ =~= "l"@ + ","@ + "n"@ + ","@ + clobber);
        assert("l,r,~{memory}"@ =~= "l"@ + ","@ + "r"@ + ","@ + clobber);
        assert("l,l,~{memory}"@ =~= "l"@ + ","@ + "l"@ + ","@ + clobber);
    }
}

/// An acquire fence names the 128 bytes of the map, a release fence nothing;
/// both have the scope asked for.
pub proof fn fences_acquire_or_release(
    operand_count: nat,
    result_count: usize,
    intrinsic_name: Seq<char>,
    acquire: bool,
    scope: Seq<char>,
)
    ensures
        ({
            let call = tensormap_fence_outcome(
                operand_count,
                result_count,
                IntrinsicBackend::LlvmNvptx,
                intrinsic_name,
                acquire,
                scope,
            );
            let text = tensormap_fence_outcome(
                operand_count,
                result_count,
                IntrinsicBackend::LibNvvm,
                intrinsic_name,
                acquire,
                scope,
            );
            let refused = |n: nat|
                Err::<LoweringView, Seq<char>>(
                    "tensor-map "@ + scope + " proxy fence requires "@ + decimal(n)
                        + " operand(s) and no results"@,
                );
            if acquire && operand_count == 1 && result_count == 0 {
                &&& call matches Ok(plan) && plan.first is None && (
                plan.emission matches EmissionView::Call { symbol, arguments } && symbol
                    == intrinsic_name && arguments.len() == 2 && arguments[0] == (TypedArg {
                    ty: ValueType::Pointer(0),
                    value: Arg::Operand(0),
                }) && arguments[1] == (TypedArg {
                    ty: ValueType::Integer(32),
                    value: Arg::I32(128),
                }))
                &&& emits(
                    text,
                    AsmKind::SideEffect,
                    1,
                    "fence.proxy.tensormap::generic.acquire."@ + scope + " [$0], 128;"@,
                    "l,~{memory}"@,
                )
            } else if !acquire && operand_count == 0 && result_count == 0 {
                &&& call matches Ok(plan) && plan.first is None && (
                plan.emission matches EmissionView::Call { symbol, arguments } && symbol
                    == intrinsic_name && arguments.len() == 0)
                &&& emits(
                    text,
                    AsmKind::SideEffect,
                    0,
                    "fence.proxy.tensormap::generic.release."@ + scope + ";"@,
                    "~{memory}"@,
                )
            } else {
                &&& acquire ==> call == refused(1) && text == refused(1)
                &&& !acquire ==> call == refused(0) && text == refused(0)
            }
        }),
{
}

/// A group is committed without operands; waits take the number of groups, as
/// an immediate.
pub proof fn controls_commit_and_wait(
    operand_count: nat,
    result_count: usize,
    operation: Seq<char>,
    intrinsic_name: Seq<char>,
)
    ensures
        ({
            let call = control_outcome(
                operand_count,
                result_count,
                IntrinsicBackend::LlvmNvptx,
                operation,
                intrinsic_name,
            );
            let text = control_outcome(
                operand_count,
                result_count,
                IntrinsicBackend::LibNvvm,
                operation,
                intrinsic_name,
            );
            let commits = operation == "commit_group"@;
            let waits = operation == "wait_group"@ || operation == "wait_group_read"@;
            let refused = |n: nat|
                Err::<LoweringView, Seq<char>>(
                    "TMA "@ + operation + " requires "@ + decimal(n)
                        + " operand(s) and no results"@,
                );
            &&& !commits && !waits ==> call == text && call == Err::<LoweringView, Seq<char>>(
                "unsupported TMA control `"@ + operation + "`"@,
            )
            &&& commits && (operand_count != 0 || result_count != 0) ==> call == refused(0) && text
                == refused(0)
            &&& waits && (operand_count != 1 || result_count != 0) ==> call == refused(1) && text
                == refused(1)
            &&& commits && operand_count == 0 && result_count == 0 ==> {
                &&& call matches Ok(plan) && plan.first is None && (
                plan.emission matches EmissionView::Call { symbol, arguments } && symbol
                    == intrinsic_name && arguments.len() == 0)
                &&& emits(
                    text,
                    AsmKind::SideEffect,
                    0,
                    "cp.async.bulk.commit_group;"@,
                    "~{memory}"@,
                )
            }
            &&& waits && operand_count == 1 && result_count == 0 ==> {
                &&& call matches Ok(plan) && plan.first is None && (
                plan.emission matches EmissionView::Call { symbol, arguments } && symbol
                    == intrinsic_name && arguments.len() == 1 && arguments[0] == (TypedArg {
                    ty: ValueType::Integer(32),
                    value: Arg::Operand(0),
                }))
                &&& operation == "wait_group"@ ==> emits(
                    text,
                    AsmKind::SideEffect,
                    1,
                    "cp.async.bulk.wait_group $0;"@,
                    "n,~{memory}"@,
                )
                &&& operation == "wait_group_read"@ ==> emits(
                    text,
                    AsmKind::SideEffect,
                    1,
                    "cp.async.bulk.wait_group.read $0;"@,
                    "n,~{memory}"@,
                )
            }
        }),
{
    reveal_strlit("commit_group");
    reveal_strlit("wait_group");
    reveal_strlit("wait_group_read");
    assert("commit_group"@.len() == 12);
    assert("wait_group"@.len() == 10);
    assert("wait_group_read"@.len() == 15);
}

/// A policy is created purely, from one fraction, into a 64-bit result.
pub proof fn policies_are_created_from_a_fraction(operand_count: nat, ptx_instruction: Seq<char>)
    ensures
        operand_count == 1 ==> (cache_policy_outcome(operand_count, ptx_instruction) matches Ok(
            plan,
        ) && plan.first is None && (plan.emission matches EmissionView::InlineAsm {
            kind,
            result,
            inputs,
            template,
            constraints,
        } && kind == AsmKind::Pure && result == Some(64u32) && inputs.len() == 1 && inputs[0]
            == Arg::Operand(0) && template == ptx_instruction + " $0, $1;"@ && constraints
            == "=l,f"@)),
        operand_count != 1 ==> cache_policy_outcome(operand_count, ptx_instruction) == Err::<
            LoweringView,
            Seq<char>,
        >(
            "generated createpolicy operation requires 1 operand, got "@ + decimal(operand_count),
        ),
{
}

/// Different instructions make different policies.
pub proof fn policies_are_told_apart(a: Seq<char>, b: Seq<char>)
    requires
        cache_policy_outcome(1, a) == cache_policy_outcome(1, b),
    ensures
        a == b,
{
    policies_are_created_from_a_fraction(1, a);
    policies_are_created_from_a_fraction(1, b);
    let x = a + " $0, $1;"@;
    let y = b + " $0, $1;"@;
    assert(x == y);
    assert(a =~= x.take(x.len() - " $0, $1;"@.len()));
    assert(b =~= y.take(y.len() - " $0, $1;"@.len()));
}

/// An address is cast exactly if it is elsewhere: what is no pointer counts as
/// generic, and the shared spaces have casts of their own.
pub proof fn addresses_are_cast_where_needed(
    spaces: Seq<Option<u32>>,
    operand: usize,
    space: u32,
)
    ensures
        space == 3 ==> address_in(spaces, operand as nat, space) == Arg::Shared(operand),
        space == 7 ==> address_in(spaces, operand as nat, space) == Arg::Cluster(operand),
        space != 3 && space != 7 && (spaces[operand as int] == Some(space) || (
        spaces[operand as int] is None && space == 0)) ==> address_in(
            spaces,
            operand as nat,
            space,
        ) == Arg::Operand(operand),
        space != 3 && space != 7 && spaces[operand as int] != Some(space) && (
        spaces[operand as int] is Some || space != 0) ==> address_in(spaces, operand as nat, space)
            == (Arg::InSpace { operand, space }),
{
}

/// The five names of directions, and no others.
pub proof fn directions_have_one_name(name: Seq<char>)
    ensures
        direction_named(name) == Some(BulkDirection::GlobalToCluster) <==> name == "g2s_cluster"@,
        direction_named(name) == Some(BulkDirection::GlobalToCta) <==> name == "g2s_cta"@,
        direction_named(name) == Some(BulkDirection::CtaToCluster) <==> name == "cta_to_cluster"@,
        direction_named(name) == Some(BulkDirection::SharedToGlobal) <==> name == "s2g"@,
        direction_named(name) == Some(BulkDirection::PrefetchL2) <==> name == "prefetch"@,
{
    reveal_strlit("g2s_cluster");
    reveal_strlit("g2s_cta");
    reveal_strlit("cta_to_cluster");
    reveal_strlit("s2g");
    reveal_strlit("prefetch");
    assert("g2s_cluster"@.len() == 11);
    assert("g2s_cta"@.len() == 7);
    assert("cta_to_cluster"@.len() == 14);
    assert("s2g"@.len() == 3);
    assert("prefetch"@.len() == 8);
}

/// What a direction uses: a barrier for the three that end in shared memory,
/// one address for the prefetch.
pub proof fn directions_use_a_barrier_or_one_address(direction: BulkDirection)
    ensures
        direction.uses_barrier() <==> direction != BulkDirection::SharedToGlobal && direction
            != BulkDirection::PrefetchL2,
        direction.is_prefetch() <==> direction == BulkDirection::PrefetchL2,
{
}

/// Identifiers are letters, digits and underscores that do not begin with a
/// digit: removing the last character, or adding one, keeps them.
pub proof fn identifiers_grow_by_characters(text: Seq<char>, c: char)
    ensures
        !is_identifier(seq![]),
        is_identifier(seq![c]) <==> ('a' <= c && c <= 'z') || ('A' <= c && c <= 'Z') || c == '_',
        text.len() > 0 ==> (is_identifier(text.push(c)) <==> is_identifier(text) && (('a' <= c && c
            <= 'z') || ('A' <= c && c <= 'Z') || ('0' <= c && c <= '9') || c == '_')),
{
    if is_identifier(seq![c]) {
        assert(seq![c][0] == c);
    }
    let longer = text.push(c);
    if text.len() > 0 && is_identifier(longer) {
        assert(longer[text.len() as int] == c);
        assert forall|i: int|
            0 <= i < text.len() implies crate::lower::symbol::continues_identifier(
            #[trigger] text[i],
        ) by {
            assert(longer[i] == text[i]);
        }
        assert(longer[0] == text[0]);
    }
    if text.len() > 0 && is_identifier(text) {
        assert(longer[0] == text[0]);
        assert forall|i: int|
            0 <= i < longer.len() && (('a' <= c && c <= 'z') || ('A' <= c && c <= 'Z') || ('0' <= c
                && c <= '9') || c == '_') implies crate::lower::symbol::continues_identifier(
            #[trigger] longer[i],
        ) by {
            if i < text.len() {
                assert(longer[i] == text[i]);
            }
        }
    }
}

} // verus!
