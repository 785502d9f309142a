//! What the plans of tensor copies, reductions and prefetches do, value by
//! value.

use crate::lower::ptx::{
    g2s_constraints, g2s_template, placeholders, prefetch_tile_constraints, ptx_load_mode,
    reduce_refusal, reduce_template, s2g_constraints,
};
use crate::lower::tma::{
    g2s_outcome, prefetch_tensormap_outcome, prefetch_tile_outcome, reduce_outcome, s2g_outcome,
    PrefetchTileConfig, ReduceConfig,
};
use crate::lower::{
    Arg, AsmKind, Emission, EmissionView, IntrinsicBackend, Lowering, LoweringError, LoweringView,
    TypedArg, ValueType,
};
use crate::text::{decimal, decimal_reads_back, is_digit, joined, occurs_in};
use vstd::prelude::*;

verus! {

/// The operands from one position on, as an instruction names them: `$3, $4`.
pub open spec fn numbered(first: nat, count: nat) -> Seq<char> {
    joined(Seq::new(count, |i: int| "$"@ + decimal((first + i) as nat)), ", "@)
}

/// Whether constraints are addresses, then 32-bit registers, then further ones.
pub open spec fn constrains(
    constraints: Seq<char>,
    addresses: nat,
    registers: nat,
    rest: Seq<Seq<char>>,
) -> bool {
    constraints == joined(
        Seq::new(
            addresses + registers + rest.len(),
            |i: int|
                if i < addresses {
                    "l"@
                } else if i < addresses + registers {
                    "r"@
                } else {
                    rest[i - addresses - registers]
                },
        ),
        ","@,
    )
}

/// The view of a plan holds the plan.
pub proof fn plans_are_seen_as_they_are(plan: Lowering)
    ensures
        plan@.first == plan.first,
        plan.emission is InlineAsm <==> plan@.emission is InlineAsm,
        plan.emission matches Emission::InlineAsm { kind, result, inputs, template, constraints }
            ==> plan@.emission == (EmissionView::InlineAsm {
            kind,
            result,
            inputs: inputs@,
            template: template@,
            constraints: constraints@,
        }),
        plan.emission matches Emission::Call { symbol, arguments } ==> plan@.emission == (
        EmissionView::Call { symbol: symbol@, arguments: arguments@ }),
{
}

/// An outcome holds the plan, or the message.
pub proof fn outcomes_are_seen_as_they_are(r: Result<Lowering, LoweringError>)
    ensures
        r matches Ok(plan) ==> crate::lower::outcome(r) == Ok::<LoweringView, Seq<char>>(plan@),
        r matches Err(error) ==> crate::lower::outcome(r) == Err::<LoweringView, Seq<char>>(
            error.message@,
        ),
{
}

/// A global-to-shared copy is planned exactly for its operand count, and for
/// libNVVM only if the destination is a pointer.
pub proof fn g2s_is_refused_by_count_and_destination(
    spaces: Seq<Option<u32>>,
    backend: IntrinsicBackend,
    dims: nat,
    multicast: bool,
    cta_group: i32,
)
    ensures
        g2s_outcome(spaces, backend, dims, multicast, cta_group) is Ok <==> spaces.len() == dims + 5
            && (backend == IntrinsicBackend::LlvmNvptx || spaces[0] is Some),
        spaces.len() != dims + 5 ==> g2s_outcome(spaces, backend, dims, multicast, cta_group) == Err::<
            LoweringView,
            Seq<char>,
        >(
            "TMA G2S "@ + decimal(dims) + "D requires "@ + decimal(dims + 5) + " operands, got "@
                + decimal(spaces.len()),
        ),
        spaces.len() == dims + 5 && backend == IntrinsicBackend::LibNvvm && spaces[0] is None
            ==> g2s_outcome(spaces, backend, dims, multicast, cta_group) == Err::<
            LoweringView,
            Seq<char>,
        >("TMA G2S destination must be a pointer"@),
{
}

/// The typed global-to-shared copy: destination in the cluster's shared memory,
/// barrier in shared memory, tensor map, coordinates, mask and hint as they
/// come, and three constants. The mask is used exactly for a multicast, the
/// hint never, and the CTA group is the one asked for.
pub proof fn g2s_call_passes_each_operand(
    spaces: Seq<Option<u32>>,
    dims: nat,
    multicast: bool,
    cta_group: i32,
)
    requires
        dims + 5 <= usize::MAX,
        spaces.len() == dims + 5,
    ensures
        g2s_outcome(spaces, IntrinsicBackend::LlvmNvptx, dims, multicast, cta_group) matches Ok(plan)
            && plan.first == Some(1usize) && (plan.emission matches EmissionView::Call {
            symbol,
            arguments,
        } && {
            let n = arguments.len() as int;
            &&& symbol == "llvm_nvvm_cp_async_bulk_tensor_g2s_tile_"@ + decimal(dims) + "d"@
            &&& n == dims + 8
            &&& arguments[0] == TypedArg { ty: ValueType::Pointer(7), value: Arg::Cluster(0) }
            &&& arguments[1] == TypedArg { ty: ValueType::Pointer(3), value: Arg::Shared(1) }
            &&& arguments[2] == TypedArg { ty: ValueType::Pointer(0), value: Arg::Operand(2) }
            &&& forall|i: int|
                3 <= i < dims + 3 ==> #[trigger] arguments[i] == (TypedArg {
                    ty: ValueType::Integer(32),
                    value: Arg::Operand(i as usize),
                })
            &&& arguments[n - 5] == TypedArg {
                ty: ValueType::Integer(16),
                value: Arg::Operand((dims + 3) as usize),
            }
            &&& arguments[n - 4] == TypedArg {
                ty: ValueType::Integer(64),
                value: Arg::Operand((dims + 4) as usize),
            }
            &&& arguments[n - 3].ty == ValueType::Integer(1)
            &&& arguments[n - 3].value == Arg::I1(true) <==> multicast
            &&& arguments[n - 3].value == Arg::I1(false) <==> !multicast
            &&& arguments[n - 2] == TypedArg { ty: ValueType::Integer(1), value: Arg::I1(false) }
            &&& arguments[n - 1] == TypedArg {
                ty: ValueType::Integer(32),
                value: Arg::I32(cta_group),
            }
        }),
{
}

/// The inline global-to-shared copy: the destination as a generic address, the
/// barrier in shared memory, the tensor map, the coordinates, and the mask of a
/// multicast; each under its constraint.
pub proof fn g2s_assembly_takes_each_operand(
    spaces: Seq<Option<u32>>,
    dims: nat,
    multicast: bool,
    cta_group: i32,
)
    requires
        dims + 5 <= usize::MAX,
        spaces.len() == dims + 5,
        spaces[0] is Some,
    ensures
        g2s_outcome(spaces, IntrinsicBackend::LibNvvm, dims, multicast, cta_group) matches Ok(plan)
            && plan.first == Some(1usize) && (plan.emission matches EmissionView::InlineAsm {
            kind,
            result,
            inputs,
            template,
            constraints,
        } && {
            &&& kind == AsmKind::Convergent
            &&& result is None
            &&& inputs.len() == dims + 3 + (if multicast {
                1int
            } else {
                0int
            })
            &&& spaces[0] == Some(0u32) ==> inputs[0] == Arg::Operand(0)
            &&& spaces[0] != Some(0u32) ==> inputs[0] == (Arg::InSpace { operand: 0, space: 0 })
            &&& inputs[1] == Arg::Shared(1)
            &&& forall|i: int|
                2 <= i < inputs.len() ==> #[trigger] inputs[i] == Arg::Operand(i as usize)
            &&& multicast ==> constrains(constraints, 3, dims, seq!["h"@, "~{memory}"@])
            &&& !multicast ==> constrains(constraints, 3, dims, seq!["~{memory}"@])
        }),
{
    let list = g2s_constraints(dims, multicast);
    if multicast {
        assert(list =~= Seq::new(
            3 + dims + 2,
            |i: int|
                if i < 3 {
                    "l"@
                } else if i < 3 + dims {
                    "r"@
                } else {
                    seq!["h"@, "~{memory}"@][i - 3 - dims]
                },
        ));
    } else {
        assert(list =~= Seq::new(
            3 + dims + 1,
            |i: int|
                if i < 3 {
                    "l"@
                } else if i < 3 + dims {
                    "r"@
                } else {
                    seq!["~{memory}"@][i - 3 - dims]
                },
        ));
    }
}

/// The inline global-to-shared instruction: it copies a tile of the rank asked
/// for into the cluster's shared memory, to the converted destination, from the
/// tensor map at the coordinates, and completes on the barrier. The modifiers
/// and the mask are there exactly for a multicast and for CTA group 2.
pub proof fn g2s_assembly_spells_the_copy(
    spaces: Seq<Option<u32>>,
    dims: nat,
    multicast: bool,
    cta_group: i32,
)
    requires
        spaces.len() == dims + 5,
        spaces[0] is Some,
    ensures
        g2s_outcome(spaces, IntrinsicBackend::LibNvvm, dims, multicast, cta_group) matches Ok(plan)
            && (plan.emission matches EmissionView::InlineAsm { template, .. } && {
            let head =
                "{ .reg .u64 %cluster_dst; cvta.to.shared::cluster.u64 %cluster_dst, $0; cp.async.bulk.tensor."@
                + decimal(dims) + "d.shared::cluster.global.tile.mbarrier::complete_tx::bytes"@;
            let addresses = " [%cluster_dst], [$2, {"@ + numbered(3, dims) + "}], [$1]"@;
            let mask = ", $"@ + decimal(dims + 3);
            &&& multicast && cta_group == 2 ==> template == head
                + ".multicast::cluster.cta_group::2"@ + addresses + mask + "; }"@
            &&& multicast && cta_group != 2 ==> template == head + ".multicast::cluster"@ + addresses
                + mask + "; }"@
            &&& !multicast && cta_group == 2 ==> template == head + ".cta_group::2"@ + addresses
                + "; }"@
            &&& !multicast && cta_group != 2 ==> template == head + addresses + "; }"@
        }),
{
    reveal_strlit("");
    reveal_strlit(".multicast::cluster");
    reveal_strlit(".cta_group::2");
    reveal_strlit(".multicast::cluster.cta_group::2");
    let head =
        "{ .reg .u64 %cluster_dst; cvta.to.shared::cluster.u64 %cluster_dst, $0; cp.async.bulk.tensor."@
        + decimal(dims) + "d.shared::cluster.global.tile.mbarrier::complete_tx::bytes"@;
    let addresses = " [%cluster_dst], [$2, {"@ + numbered(3, dims) + "}], [$1]"@;
    let mask = ", $"@ + decimal(dims + 3);
    let template = g2s_template(dims, multicast, cta_group);
    assert(placeholders(3, dims) =~= Seq::new(dims, |i: int| "$"@ + decimal((3 + i) as nat)));
    if multicast && cta_group == 2 {
        assert(template =~= head + ".multicast::cluster.cta_group::2"@ + addresses + mask + "; }"@);
    } else if multicast {
        assert(template =~= head + ".multicast::cluster"@ + addresses + mask + "; }"@);
    } else if cta_group == 2 {
        assert(template =~= head + ".cta_group::2"@ + addresses + "; }"@);
    } else {
        assert(template =~= head + addresses + "; }"@);
    }
}

/// Whether a text holds no `m` before a `u`.
spec fn lacks_mu(s: Seq<char>) -> bool {
    forall|i: int| #![trigger s[i]] 0 <= i < s.len() - 1 && s[i] == 'm' ==> s[i + 1] != 'u'
}

proof fn lacks_mu_extends(a: Seq<char>, b: Seq<char>)
    requires
        lacks_mu(a),
        lacks_mu(b),
        a.len() > 0 ==> a.last() != 'm',
    ensures
        lacks_mu(a + b),
{
    let s = a + b;
    assert forall|i: int| #![trigger s[i]] 0 <= i < s.len() - 1 && s[i] == 'm' implies s[i + 1]
        != 'u' by {
        if i < a.len() - 1 {
            assert(a[i] == 'm' && a[i + 1] == s[i + 1]);
        } else if i == a.len() - 1 {
            assert(a.last() == 'm');
        } else {
            assert(b[i - a.len()] == 'm');
        }
    }
}

/// Whether a text holds neither `m` nor `u`.
spec fn lacks_letters(s: Seq<char>) -> bool {
    forall|i: int| #![trigger s[i]] 0 <= i < s.len() ==> s[i] != 'm' && s[i] != 'u'
}

proof fn lacks_letters_extends(a: Seq<char>, b: Seq<char>)
    requires
        lacks_letters(a),
        lacks_letters(b),
    ensures
        lacks_letters(a + b),
{
    let s = a + b;
    assert forall|i: int| #![trigger s[i]] 0 <= i < s.len() implies s[i] != 'm' && s[i] != 'u' by {
        if i < a.len() {
            assert(s[i] == a[i]);
        } else {
            assert(s[i] == b[i - a.len()]);
        }
    }
}

proof fn decimal_lacks_letters(n: nat)
    ensures
        lacks_letters(decimal(n)),
{
    decimal_reads_back(n);
    let s = decimal(n);
    assert forall|i: int| #![trigger s[i]] 0 <= i < s.len() implies s[i] != 'm' && s[i] != 'u' by {
        assert(is_digit(s[i]));
    }
}

proof fn joined_lacks_letters(parts: Seq<Seq<char>>, separator: Seq<char>)
    requires
        lacks_letters(separator),
        forall|i: int| 0 <= i < parts.len() ==> lacks_letters(#[trigger] parts[i]),
    ensures
        lacks_letters(joined(parts, separator)),
    decreases parts.len(),
{
    if parts.len() > 1 {
        joined_lacks_letters(parts.drop_last(), separator);
        lacks_letters_extends(joined(parts.drop_last(), separator), separator);
        assert(lacks_letters(parts[parts.len() - 1]));
        lacks_letters_extends(
            joined(parts.drop_last(), separator) + separator,
            parts.last(),
        );
    } else if parts.len() == 1 {
        assert(lacks_letters(parts[0]));
    }
}

proof fn numbered_lacks_letters(first: nat, count: nat)
    ensures
        lacks_letters(numbered(first, count)),
{
    reveal_strlit(", ");
    reveal_strlit("$");
    let parts = Seq::new(count, |i: int| "$"@ + decimal((first + i) as nat));
    assert forall|i: int| 0 <= i < parts.len() implies lacks_letters(#[trigger] parts[i]) by {
        decimal_lacks_letters((first + i) as nat);
        lacks_letters_extends("$"@, decimal((first + i) as nat));
    }
    joined_lacks_letters(parts, ", "@);
}

proof fn copy_without_multicast_lacks_mu(dims: nat, modifier: Seq<char>)
    requires
        lacks_mu(modifier),
        modifier.len() > 0 ==> modifier.last() != 'm',
    ensures
        lacks_mu(
            "{ .reg .u64 %cluster_dst; cvta.to.shared::cluster.u64 %cluster_dst, $0; cp.async.bulk.tensor."@
                + decimal(dims) + "d.shared::cluster.global.tile.mbarrier::complete_tx::bytes"@
                + modifier + (" [%cluster_dst], [$2, {"@ + numbered(3, dims) + "}], [$1]"@)
                + "; }"@,
        ),
{
    let a =
        "{ .reg .u64 %cluster_dst; cvta.to.shared::cluster.u64 %cluster_dst, $0; cp.async.bulk.tensor."@;
    let b = "d.shared::cluster.global.tile.mbarrier::complete_tx::bytes"@;
    let c = " [%cluster_dst], [$2, {"@;
    let d = "}], [$1]"@;
    let e = "; }"@;
    reveal_strlit(
        "{ .reg .u64 %cluster_dst; cvta.to.shared::cluster.u64 %cluster_dst, $0; cp.async.bulk.tensor.",
    );
    reveal_strlit("d.shared::cluster.global.tile.mbarrier::complete_tx::bytes");
    reveal_strlit(" [%cluster_dst], [$2, {");
    reveal_strlit("}], [$1]");
    reveal_strlit("; }");
    decimal_reads_back(dims);
    decimal_lacks_letters(dims);
    numbered_lacks_letters(3, dims);
    let x = decimal(dims);
    let y = numbered(3, dims);
    lacks_mu_extends(a, x);
    assert((a + x).last() == x.last());
    lacks_mu_extends(a + x, b);
    assert((a + x + b).last() == b.last());
    lacks_mu_extends(a + x + b, modifier);
    lacks_mu_extends(c, y);
    assert(y.len() > 0 ==> (c + y).last() == y.last());
    assert(y.len() == 0 ==> c + y =~= c);
    lacks_mu_extends(c + y, d);
    assert(modifier.len() > 0 ==> (a + x + b + modifier).last() == modifier.last());
    assert(modifier.len() == 0 ==> a + x + b + modifier =~= a + x + b);
    lacks_mu_extends(a + x + b + modifier, c + y + d);
    assert((a + x + b + modifier + (c + y + d)).last() == d.last());
    lacks_mu_extends(a + x + b + modifier + (c + y + d), e);
}

/// Both backends multicast alike: the call uses the mask exactly if the inline
/// instruction of the same copy has the multicast modifier.
pub proof fn g2s_backends_multicast_alike(
    spaces: Seq<Option<u32>>,
    dims: nat,
    multicast: bool,
    cta_group: i32,
)
    requires
        dims + 5 <= usize::MAX,
        spaces.len() == dims + 5,
        spaces[0] is Some,
    ensures
        g2s_outcome(spaces, IntrinsicBackend::LlvmNvptx, dims, multicast, cta_group) matches Ok(call)
            && g2s_outcome(spaces, IntrinsicBackend::LibNvvm, dims, multicast, cta_group) matches Ok(
            text,
        ) && (call.emission matches EmissionView::Call { arguments, .. } && (
        text.emission matches EmissionView::InlineAsm { template, .. } && {
            &&& arguments[arguments.len() - 3].value == Arg::I1(true) <==> occurs_in(
                ".multicast::cluster"@,
                template,
            )
            &&& arguments[arguments.len() - 3].value == Arg::I1(true) <==> multicast
        })),
{
    g2s_call_passes_each_operand(spaces, dims, multicast, cta_group);
    g2s_assembly_spells_the_copy(spaces, dims, multicast, cta_group);
    let template = g2s_template(dims, multicast, cta_group);
    let part = ".multicast::cluster"@;
    reveal_strlit(".multicast::cluster");
    let head =
        "{ .reg .u64 %cluster_dst; cvta.to.shared::cluster.u64 %cluster_dst, $0; cp.async.bulk.tensor."@
        + decimal(dims) + "d.shared::cluster.global.tile.mbarrier::complete_tx::bytes"@;
    let addresses = " [%cluster_dst], [$2, {"@ + numbered(3, dims) + "}], [$1]"@;
    if multicast {
        let at = head.len() as int;
        reveal_strlit(".multicast::cluster.cta_group::2");
        assert(part =~= template.subrange(at, at + part.len()));
    } else {
        reveal_strlit(".cta_group::2");
        reveal_strlit("");
        copy_without_multicast_lacks_mu(dims, ".cta_group::2"@);
        copy_without_multicast_lacks_mu(dims, ""@);
        assert(head + ""@ + addresses + "; }"@ =~= head + addresses + "; }"@);
        assert(lacks_mu(template));
        if occurs_in(part, template) {
            let at = choose|at: int|
                0 <= at && at + part.len() <= template.len() && part == #[trigger] template.subrange(
                    at,
                    at + part.len(),
                );
            assert(part[1] == template[at + 1]);
            assert(part[2] == template[at + 2]);
        }
    }
}

/// A shared-to-global copy is planned exactly for its operand count.
pub proof fn s2g_is_refused_by_count(spaces: Seq<Option<u32>>, backend: IntrinsicBackend, dims: nat)
    ensures
        s2g_outcome(spaces, backend, dims) is Ok <==> spaces.len() == dims + 2,
        spaces.len() != dims + 2 ==> s2g_outcome(spaces, backend, dims) == Err::<
            LoweringView,
            Seq<char>,
        >(
            "TMA S2G "@ + decimal(dims) + "D requires "@ + decimal(dims + 2) + " operands, got "@
                + decimal(spaces.len()),
        ),
{
}

/// Whether arguments are those of a typed copy from shared to global memory:
/// the source in shared memory, the tensor map, the coordinates, and no hint.
pub open spec fn stores_a_tile(arguments: Seq<TypedArg>, dims: nat) -> bool {
    &&& arguments.len() == dims + 4
    &&& arguments[0] == TypedArg { ty: ValueType::Pointer(3), value: Arg::Shared(0) }
    &&& arguments[1] == TypedArg { ty: ValueType::Pointer(0), value: Arg::Operand(1) }
    &&& forall|i: int|
        2 <= i < dims + 2 ==> #[trigger] arguments[i] == (TypedArg {
            ty: ValueType::Integer(32),
            value: Arg::Operand(i as usize),
        })
    &&& arguments[dims + 2int] == TypedArg { ty: ValueType::Integer(64), value: Arg::I64(0) }
    &&& arguments[dims + 3int] == TypedArg { ty: ValueType::Integer(1), value: Arg::I1(false) }
}

/// Whether inputs are those of an inline copy from shared to global memory.
pub open spec fn reads_a_tile(inputs: Seq<Arg>, dims: nat) -> bool {
    &&& inputs.len() == dims + 2
    &&& inputs[0] == Arg::Shared(0)
    &&& forall|i: int| 1 <= i < dims + 2 ==> #[trigger] inputs[i] == Arg::Operand(i as usize)
}

proof fn store_constraints(dims: nat)
    ensures
        constrains(joined(s2g_constraints(dims), ","@), 2, dims, seq!["~{memory}"@]),
{
    assert(s2g_constraints(dims) =~= Seq::new(
        2 + dims + 1,
        |i: int|
            if i < 2 {
                "l"@
            } else if i < 2 + dims {
                "r"@
            } else {
                seq!["~{memory}"@][i - 2 - dims]
            },
    ));
}

/// The shared-to-global copy: the typed call passes the source in shared
/// memory, the map and the coordinates; the inline instruction stores the tile
/// of the rank asked for from the source through the map at the coordinates.
pub proof fn s2g_copies_the_tile(spaces: Seq<Option<u32>>, dims: nat)
    requires
        dims + 2 <= usize::MAX,
        spaces.len() == dims + 2,
    ensures
        s2g_outcome(spaces, IntrinsicBackend::LlvmNvptx, dims) matches Ok(plan) && plan.first
            is None && (plan.emission matches EmissionView::Call { symbol, arguments } && symbol
            == "llvm_nvvm_cp_async_bulk_tensor_s2g_tile_"@ + decimal(dims) + "d"@ && stores_a_tile(
            arguments,
            dims,
        )),
        s2g_outcome(spaces, IntrinsicBackend::LibNvvm, dims) matches Ok(plan) && plan.first is None
            && (plan.emission matches EmissionView::InlineAsm {
            kind,
            result,
            inputs,
            template,
            constraints,
        } && kind == AsmKind::Convergent && result is None && reads_a_tile(inputs, dims)
            && constrains(constraints, 2, dims, seq!["~{memory}"@]) && template
            == "cp.async.bulk.tensor."@ + decimal(dims)
            + "d.global.shared::cta.tile.bulk_group [$1, {"@ + numbered(2, dims) + "}], [$0];"@),
{
    store_constraints(dims);
    assert(placeholders(2, dims) =~= Seq::new(dims, |i: int| "$"@ + decimal((2 + i) as nat)));
}

/// A tensor reduction is accepted exactly for one through five dimensions, one
/// of eight operations, and a tile or, from three dimensions on, an im2col
/// load; the first of these that fails is named.
pub proof fn reductions_are_accepted_by_rank_operation_and_mode(
    dims: nat,
    reduction: Seq<char>,
    load_mode: Seq<char>,
)
    ensures
        ({
            let known = reduction == "add"@ || reduction == "and"@ || reduction == "dec"@
                || reduction == "inc"@ || reduction == "max"@ || reduction == "min"@ || reduction
                == "or"@ || reduction == "xor"@;
            let refusal = reduce_refusal(dims, reduction, load_mode);
            &&& refusal is None <==> dims != 0 && dims < 6 && known && (load_mode == "tile"@ || (
            load_mode == "im2col"@ && dims > 2))
            &&& dims == 0 || dims > 5 ==> refusal == Some(
                "TMA reduction requires 1 through 5 dimensions, got "@ + decimal(dims),
            )
            &&& 0 < dims < 6 && !known ==> refusal == Some(
                "unsupported TMA reduction operation `"@ + reduction + "`"@,
            )
            &&& 0 < dims < 3 && known && load_mode == "im2col"@ ==> refusal == Some(
                "TMA reduction im2col requires at least 3 dimensions"@,
            )
            &&& 0 < dims < 6 && known && load_mode != "im2col"@ && load_mode != "tile"@ ==> refusal
                == Some("unsupported TMA reduction load mode `"@ + load_mode + "`"@)
        }),
{
    reveal_strlit("tile");
    reveal_strlit("im2col");
    assert("tile"@.len() != "im2col"@.len());
}

/// The inline reduction performs the operation asked for, in the load mode
/// asked for, on a tile of the rank asked for, from shared memory through the
/// map at the coordinates.
pub proof fn reductions_spell_their_operation(
    dims: nat,
    reduction: Seq<char>,
    load_mode: Seq<char>,
)
    requires
        reduce_refusal(dims, reduction, load_mode) is None,
    ensures
        ({
            let template = reduce_template(dims, reduction, ptx_load_mode(dims, load_mode)->0);
            &&& occurs_in(".shared::cta."@ + reduction + "."@, template)
            &&& load_mode == "tile"@ ==> template == "cp.reduce.async.bulk.tensor."@ + decimal(dims)
                + "d.global"@ + (".shared::cta."@ + reduction + "."@) + "tile.bulk_group [$1, {"@
                + numbered(2, dims) + "}], [$0];"@
            &&& load_mode == "im2col"@ ==> template == "cp.reduce.async.bulk.tensor."@ + decimal(
                dims,
            ) + "d.global"@ + (".shared::cta."@ + reduction + "."@)
                + "im2col_no_offs.bulk_group [$1, {"@ + numbered(2, dims) + "}], [$0];"@
        }),
{
    let template = reduce_template(dims, reduction, ptx_load_mode(dims, load_mode)->0);
    reveal_strlit("d.global.shared::cta.");
    reveal_strlit("d.global");
    reveal_strlit(".shared::cta.");
    reveal_strlit(".");
    reveal_strlit("tile");
    reveal_strlit("im2col");
    assert("tile"@.len() != "im2col"@.len());
    reveal_strlit("im2col_no_offs");
    reveal_strlit(".bulk_group [$1, {");
    reveal_strlit("tile.bulk_group [$1, {");
    reveal_strlit("im2col_no_offs.bulk_group [$1, {");
    assert(placeholders(2, dims) =~= Seq::new(dims, |i: int| "$"@ + decimal((2 + i) as nat)));
    let head = "cp.reduce.async.bulk.tensor."@ + decimal(dims) + "d.global"@;
    let middle = ".shared::cta."@ + reduction + "."@;
    let tail = numbered(2, dims) + "}], [$0];"@;
    if load_mode == "tile"@ {
        assert(template =~= head + middle + "tile.bulk_group [$1, {"@ + numbered(2, dims)
            + "}], [$0];"@);
    } else {
        assert(template =~= head + middle + "im2col_no_offs.bulk_group [$1, {"@ + numbered(2, dims)
            + "}], [$0];"@);
    }
    let at = head.len() as int;
    assert(middle =~= template.subrange(at, at + middle.len()));
}

/// Accepted reductions of one rank and load mode with different operations are
/// different instructions.
pub proof fn different_reductions_differ(
    dims: nat,
    a: Seq<char>,
    b: Seq<char>,
    load_mode: Seq<char>,
)
    requires
        reduce_refusal(dims, a, load_mode) is None,
        reduce_refusal(dims, b, load_mode) is None,
        reduce_template(dims, a, ptx_load_mode(dims, load_mode)->0) == reduce_template(
            dims,
            b,
            ptx_load_mode(dims, load_mode)->0,
        ),
    ensures
        a == b,
{
    let mode = ptx_load_mode(dims, load_mode)->0;
    let x = reduce_template(dims, a, mode);
    let y = reduce_template(dims, b, mode);
    let head = "cp.reduce.async.bulk.tensor."@ + decimal(dims) + "d.global.shared::cta."@;
    let at = head.len() as int;
    let tail = "."@ + mode + ".bulk_group [$1, {"@ + crate::lower::ptx::coordinates(2, dims)
        + "}], [$0];"@;
    assert(x =~= head + a + tail);
    assert(y =~= head + b + tail);
    assert(a.len() == b.len());
    assert(a =~= x.subrange(at, at + a.len()));
    assert(b =~= y.subrange(at, at + b.len()));
}

/// Reductions are refused for their shape first, then for what they ask; an
/// accepted one is the named call, or the inline reduction, on the same values
/// as a copy.
pub proof fn reductions_reduce_the_tile(
    spaces: Seq<Option<u32>>,
    result_count: usize,
    config: ReduceConfig<'_>,
)
    requires
        config.dims + 2 <= usize::MAX,
    ensures
        ({
            let dims = config.dims as nat;
            let fits = spaces.len() == config.dims + 2 && result_count == 0;
            let refusal = reduce_refusal(dims, config.reduction@, config.load_mode@);
            let call = reduce_outcome(spaces, result_count, IntrinsicBackend::LlvmNvptx, config);
            let text = reduce_outcome(spaces, result_count, IntrinsicBackend::LibNvvm, config);
            &&& !fits ==> call == text && call == Err::<LoweringView, Seq<char>>(
                "TMA reduction "@ + decimal(dims) + "D requires "@ + decimal(dims + 2)
                    + " operand(s) and no results"@,
            )
            &&& fits && refusal is Some ==> call == text && call == Err::<LoweringView, Seq<char>>(
                refusal->0,
            )
            &&& fits && refusal is None ==> {
                &&& call matches Ok(plan) && plan.first is None && (
                plan.emission matches EmissionView::Call { symbol, arguments } && symbol
                    == config.intrinsic_name@ && stores_a_tile(arguments, dims))
                &&& text matches Ok(plan) && plan.first is None && (
                plan.emission matches EmissionView::InlineAsm {
                    kind,
                    result,
                    inputs,
                    template,
                    constraints,
                } && kind == AsmKind::Convergent && result is None && reads_a_tile(inputs, dims)
                    && constrains(constraints, 2, dims, seq!["~{memory}"@]) && template
                    == "cp.reduce.async.bulk.tensor."@ + decimal(dims) + "d.global"@ + (
                ".shared::cta."@ + config.reduction@ + "."@) + (if config.load_mode@ == "tile"@ {
                    "tile.bulk_group [$1, {"@
                } else {
                    "im2col_no_offs.bulk_group [$1, {"@
                }) + numbered(2, dims) + "}], [$0];"@)
            }
        }),
{
    let dims = config.dims as nat;
    store_constraints(dims);
    if reduce_refusal(dims, config.reduction@, config.load_mode@) is None {
        reductions_spell_their_operation(dims, config.reduction@, config.load_mode@);
        reductions_are_accepted_by_rank_operation_and_mode(
            dims,
            config.reduction@,
            config.load_mode@,
        );
    }
}

/// The prefetch of a tensor map takes the one operand as it is.
pub proof fn tensormap_prefetch_takes_the_map(
    operand_count: nat,
    result_count: usize,
    intrinsic_name: Seq<char>,
)
    ensures
        ({
            let call = prefetch_tensormap_outcome(
                operand_count,
                result_count,
                IntrinsicBackend::LlvmNvptx,
                intrinsic_name,
            );
            let text = prefetch_tensormap_outcome(
                operand_count,
                result_count,
                IntrinsicBackend::LibNvvm,
                intrinsic_name,
            );
            if operand_count == 1 && result_count == 0 {
                &&& call matches Ok(plan) && plan.first is None && (
                plan.emission matches EmissionView::Call { symbol, arguments } && symbol
                    == intrinsic_name && arguments.len() == 1 && arguments[0] == (TypedArg {
                    ty: ValueType::Pointer(0),
                    value: Arg::Operand(0),
                }))
                &&& text matches Ok(plan) && plan.first is None && (
                plan.emission matches EmissionView::InlineAsm {
                    kind,
                    result,
                    inputs,
                    template,
                    constraints,
                } && kind == AsmKind::SideEffect && result is None && inputs.len() == 1 && inputs[0]
                    == Arg::Operand(0) && template == "prefetch.tensormap [$0];"@ && constraints
                    == "l,~{memory}"@)
            } else {
                call == text && call == Err::<LoweringView, Seq<char>>(
                    "prefetch.tensormap requires one operand and no results"@,
                )
            }
        }),
{
}

/// The prefetch of a tile takes the map, the coordinates and, if it is used,
/// the hint; the flag of the call says whether it is, as the modifier and the
/// last operand of the instruction do. A gather is of two dimensions.
pub proof fn tile_prefetch_takes_each_operand(
    operand_count: nat,
    result_count: usize,
    config: PrefetchTileConfig<'_>,
)
    requires
        config.coordinate_count + 2 <= usize::MAX,
    ensures
        ({
            let n = config.coordinate_count as nat;
            let hinted = config.use_cache_hint;
            let expected = if hinted {
                n + 2
            } else {
                n + 1
            };
            let call = prefetch_tile_outcome(
                operand_count,
                result_count,
                IntrinsicBackend::LlvmNvptx,
                config,
            );
            let text = prefetch_tile_outcome(
                operand_count,
                result_count,
                IntrinsicBackend::LibNvvm,
                config,
            );
            if operand_count == expected && result_count == 0 {
                &&& call matches Ok(plan) && plan.first is None && (
                plan.emission matches EmissionView::Call { symbol, arguments } && {
                    &&& symbol == config.intrinsic_name@
                    &&& arguments.len() == n + 3
                    &&& arguments[0] == TypedArg {
                        ty: ValueType::Pointer(0),
                        value: Arg::Operand(0),
                    }
                    &&& forall|i: int|
                        1 <= i <= n ==> #[trigger] arguments[i] == (TypedArg {
                            ty: ValueType::Integer(32),
                            value: Arg::Operand(i as usize),
                        })
                    &&& arguments[n + 1int].ty == ValueType::Integer(64)
                    &&& hinted ==> arguments[n + 1int].value == Arg::Operand((n + 1) as usize)
                    &&& !hinted ==> arguments[n + 1int].value == Arg::I64(0)
                    &&& arguments[n + 2int].ty == ValueType::Integer(1)
                    &&& arguments[n + 2int].value == Arg::I1(true) <==> hinted
                    &&& arguments[n + 2int].value == Arg::I1(false) <==> !hinted
                })
                &&& text matches Ok(plan) && plan.first is None && (
                plan.emission matches EmissionView::InlineAsm {
                    kind,
                    result,
                    inputs,
                    template,
                    constraints,
                } && {
                    let rank = if config.gather4 {
                        "2"@
                    } else {
                        decimal(n)
                    };
                    let tile = if config.gather4 {
                        "d.L2.global.tile::gather4"@
                    } else {
                        "d.L2.global.tile"@
                    };
                    let head = "cp.async.bulk.prefetch.tensor."@ + rank + tile;
                    &&& kind == AsmKind::Convergent
                    &&& result is None
                    &&& inputs.len() == expected
                    &&& forall|i: int|
                        0 <= i < inputs.len() ==> #[trigger] inputs[i] == Arg::Operand(i as usize)
                    &&& hinted ==> template == head + ".L2::cache_hint [$0, {"@ + numbered(1, n)
                        + "}], $"@ + decimal(n + 1) + ";"@
                    &&& !hinted ==> template == head + " [$0, {"@ + numbered(1, n) + "}];"@
                    &&& hinted ==> constrains(constraints, 1, n, seq!["l"@, "~{memory}"@])
                    &&& !hinted ==> constrains(constraints, 1, n, seq!["~{memory}"@])
                })
            } else {
                call == text && call == Err::<LoweringView, Seq<char>>(
                    "TMA tile prefetch requires "@ + decimal(expected)
                        + " operand(s) and no results"@,
                )
            }
        }),
{
    let n = config.coordinate_count as nat;
    let hinted = config.use_cache_hint;
    let list = prefetch_tile_constraints(n, hinted);
    assert(placeholders(1, n) =~= Seq::new(n, |i: int| "$"@ + decimal((1 + i) as nat)));
    reveal_strlit("");
    reveal_strlit("2d");
    reveal_strlit("2");
    reveal_strlit("d");
    reveal_strlit(".L2.global.");
    reveal_strlit("tile");
    reveal_strlit("tile::gather4");
    reveal_strlit("d.L2.global.tile");
    reveal_strlit("d.L2.global.tile::gather4");
    reveal_strlit(".L2::cache_hint");
    reveal_strlit(" [$0, {");
    reveal_strlit(".L2::cache_hint [$0, {");
    reveal_strlit("}]");
    reveal_strlit(", $");
    reveal_strlit("}], $");
    reveal_strlit(";");
    reveal_strlit("}];");
    let rank = if config.gather4 {
        "2"@
    } else {
        decimal(n)
    };
    let tile = if config.gather4 {
        "d.L2.global.tile::gather4"@
    } else {
        "d.L2.global.tile"@
    };
    let head = "cp.async.bulk.prefetch.tensor."@ + rank + tile;
    let template = crate::lower::ptx::prefetch_tile_template(n, config.gather4, hinted);
    if hinted {
        assert(template =~= head + ".L2::cache_hint [$0, {"@ + numbered(1, n) + "}], $"@ + decimal(
            n + 1,
        ) + ";"@);
        assert(list =~= Seq::new(
            1 + n + 2,
            |i: int|
                if i < 1 {
                    "l"@
                } else if i < 1 + n {
                    "r"@
                } else {
                    seq!["l"@, "~{memory}"@][i - 1 - n]
                },
        ));
    } else {
        assert(template =~= head + " [$0, {"@ + numbered(1, n) + "}];"@);
        assert(list =~= Seq::new(
            1 + n + 1,
            |i: int|
                if i < 1 {
                    "l"@
                } else if i < 1 + n {
                    "r"@
                } else {
                    seq!["~{memory}"@][i - 1 - n]
                },
        ));
    }
}

} // verus!
