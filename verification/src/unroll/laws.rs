//! What the pass keeps and promises, for every module.

use crate::unroll::{
    base_at, function_places, governing_hint, governing_hint_is_on_a_loop, group_of, groups_needed,
    hinted_loops, hinted_loops_are_listed_once, hints, hints_in, is_addressable, module_groups,
    module_groups_grow, op_at, op_groups, ops_groups, ops_groups_grow, places_are_functions,
    request_of, said, said_at, said_of_module, stray_text, tagged, tagged_module, tagged_op,
    tagged_ops, without_hints, BlockOp, BlockView, Exit, FunctionView, Hint, LlvmLoopUnrollAttr,
    LoopInfoView, ModuleOpView, Terminator,
};
use vstd::prelude::*;

verus! {

/// Whether no hint stands in an operation.
pub open spec fn is_hint_free(op: ModuleOpView) -> bool {
    op matches ModuleOpView::Function(function) ==> hints(function.blocks).len() == 0
}

/// Whether no hint stands in a module.
pub open spec fn is_module_hint_free(module: Seq<Seq<ModuleOpView>>) -> bool {
    forall|b: int, i: int|
        #![trigger module[b][i]]
        0 <= b < module.len() && 0 <= i < module[b].len() ==> is_hint_free(module[b][i])
}

/// Where there are no hints among operations, taking hints out changes nothing,
/// and the other way round.
proof fn hint_free_ops(ops: Seq<BlockOp>, block: usize)
    ensures
        hints_in(ops, block).len() == 0 <==> without_hints(ops) == ops,
        hints_in(without_hints(ops), block).len() == 0,
    decreases ops.len(),
{
    reveal(Seq::filter);
    let keep = |op: BlockOp| op !is UnrollHint;
    if ops.len() > 0 {
        let shorter = ops.drop_last();
        hint_free_ops(shorter, block);
        assert(without_hints(shorter).len() <= shorter.len()) by {
            shorter.lemma_filter_len(keep);
        }
        if ops.last() is UnrollHint {
            assert(without_hints(ops) == without_hints(shorter));
        } else {
            assert(without_hints(ops) == without_hints(shorter).push(ops.last()));
            assert(without_hints(ops).drop_last() =~= without_hints(shorter));
            if without_hints(shorter) == shorter {
                assert(without_hints(ops) =~= ops);
            }
            if without_hints(ops) == ops {
                assert(without_hints(shorter) =~= shorter);
            }
        }
    }
}

/// Blocks are free of hints exactly if each one is.
proof fn hint_free_blocks(blocks: Seq<BlockView>)
    requires
        blocks.len() <= usize::MAX,
    ensures
        hints(blocks).len() == 0 <==> forall|b: int|
            0 <= b < blocks.len() ==> without_hints((#[trigger] blocks[b]).ops) == blocks[b].ops,
    decreases blocks.len(),
{
    if blocks.len() > 0 {
        let shorter = blocks.drop_last();
        hint_free_blocks(shorter);
        hint_free_ops(blocks.last().ops, (blocks.len() - 1) as usize);
        if hints(blocks).len() == 0 {
            assert forall|b: int| 0 <= b < blocks.len() implies without_hints(
                (#[trigger] blocks[b]).ops,
            ) == blocks[b].ops by {
                if b < shorter.len() {
                    assert(shorter[b] == blocks[b]);
                }
            }
        } else if hints(shorter).len() > 0 {
            let b = choose|b: int|
                0 <= b < shorter.len() && without_hints((#[trigger] shorter[b]).ops)
                    != shorter[b].ops;
            assert(blocks[b] == shorter[b]);
        }
    }
}

/// A function without hints stays as it is, takes no group, and nothing is said
/// about it, whatever other functions the module has.
pub proof fn hint_free_functions_stay(function: FunctionView, base: nat, verbose: bool)
    requires
        function.blocks.len() <= usize::MAX,
        hints(function.blocks).len() == 0,
    ensures
        tagged(function, base) == function,
        groups_needed(function) == 0,
        said(hints(function.blocks), function.info, base, verbose).len() == 0,
{
    hint_free_blocks(function.blocks);
    let after = tagged(function, base);
    assert forall|b: int| 0 <= b < function.blocks.len() implies #[trigger] after.blocks[b]
        == function.blocks[b] by {
        assert(without_hints(function.blocks[b].ops) == function.blocks[b].ops);
    }
    assert(after.blocks =~= function.blocks);
}

/// No hint is left in a function.
proof fn hints_leave_functions(function: FunctionView, base: nat)
    requires
        function.blocks.len() <= usize::MAX,
    ensures
        hints(tagged(function, base).blocks).len() == 0,
{
    let after = tagged(function, base);
    hint_free_blocks(after.blocks);
    assert forall|b: int| 0 <= b < after.blocks.len() implies without_hints(
        (#[trigger] after.blocks[b]).ops,
    ) == after.blocks[b].ops by {
        hint_free_ops(function.blocks[b].ops, b as usize);
        hint_free_ops(after.blocks[b].ops, b as usize);
    }
}

/// Whether a module has no more operations and blocks than can be counted.
pub open spec fn is_countable(module: Seq<Seq<ModuleOpView>>) -> bool {
    &&& is_addressable(module)
    &&& forall|b: int, i: int|
        #![trigger module[b][i]]
        0 <= b < module.len() && 0 <= i < module[b].len() ==> (module[b][i] matches
            ModuleOpView::Function(function) ==> function.blocks.len() <= usize::MAX)
}

proof fn hint_free_op_lists_stay(ops: Seq<ModuleOpView>, base: nat)
    requires
        forall|i: int|
            #![trigger ops[i]]
            0 <= i < ops.len() ==> is_hint_free(ops[i]) && (ops[i] matches ModuleOpView::Function(
                function,
            ) ==> function.blocks.len() <= usize::MAX),
    ensures
        tagged_ops(ops, base) == ops,
{
    assert forall|i: int| 0 <= i < ops.len() implies #[trigger] tagged_ops(ops, base)[i]
        == ops[i] by {
        if let ModuleOpView::Function(function) = ops[i] {
            hint_free_functions_stay(function, base + ops_groups(ops.take(i)), true);
        }
    }
    assert(tagged_ops(ops, base) =~= ops);
}

proof fn hint_free_places_are_silent(
    module: Seq<Seq<ModuleOpView>>,
    places: Seq<(usize, usize)>,
    verbose: bool,
)
    requires
        is_countable(module),
        is_module_hint_free(module),
        forall|k: int|
            #![trigger places[k]]
            0 <= k < places.len() ==> places[k].0 < module.len() && places[k].1
                < module[places[k].0 as int].len(),
    ensures
        said_at(module, places, verbose).len() == 0,
    decreases places.len(),
{
    if places.len() > 0 {
        let shorter = places.drop_last();
        assert forall|k: int| #![trigger shorter[k]] 0 <= k < shorter.len() implies shorter[k].0
            < module.len() && shorter[k].1 < module[shorter[k].0 as int].len() by {
            assert(shorter[k] == places[k]);
        }
        hint_free_places_are_silent(module, shorter, verbose);
        let last = places[places.len() - 1];
        let op = module[last.0 as int][last.1 as int];
        assert(op == op_at(module, places.last()));
        assert(is_hint_free(op));
        if let ModuleOpView::Function(function) = op {
            hint_free_functions_stay(
                function,
                base_at(module, last.0 as int, last.1 as int),
                verbose,
            );
        }
    }
}

/// A module without hints stays as it is, and nothing is said about it.
pub proof fn hint_free_modules_stay(module: Seq<Seq<ModuleOpView>>, verbose: bool)
    requires
        is_countable(module),
        is_module_hint_free(module),
    ensures
        tagged_module(module) == module,
        said_of_module(module, verbose).len() == 0,
{
    places_are_functions(module, module.len() as int);
    assert(module.take(module.len() as int) =~= module);
    hint_free_places_are_silent(module, function_places(module), verbose);
    assert forall|b: int| 0 <= b < module.len() implies #[trigger] tagged_module(module)[b]
        == module[b] by {
        let ops = module[b];
        assert forall|i: int| #![trigger ops[i]] 0 <= i < ops.len() implies is_hint_free(ops[i])
            && (ops[i] matches ModuleOpView::Function(function) ==> function.blocks.len()
            <= usize::MAX) by {
            assert(ops[i] == module[b][i]);
        }
        hint_free_op_lists_stay(ops, module_groups(module.take(b)));
    }
    assert(tagged_module(module) =~= module);
}

/// No hint is left in a module.
pub proof fn hints_are_consumed(module: Seq<Seq<ModuleOpView>>)
    requires
        is_countable(module),
    ensures
        is_module_hint_free(tagged_module(module)),
{
    let after = tagged_module(module);
    assert forall|b: int, i: int|
        #![trigger after[b][i]]
        0 <= b < after.len() && 0 <= i < after[b].len() implies is_hint_free(after[b][i]) by {
        let base = module_groups(module.take(b)) + ops_groups(module[b].take(i));
        assert(after[b][i] == tagged_op(module[b][i], base));
        if let ModuleOpView::Function(function) = module[b][i] {
            hints_leave_functions(function, base);
        }
    }
}

/// Following the hints a second time changes nothing and says nothing.
pub proof fn following_hints_is_idempotent(module: Seq<Seq<ModuleOpView>>, verbose: bool)
    requires
        is_countable(module),
    ensures
        tagged_module(tagged_module(module)) == tagged_module(module),
        said_of_module(tagged_module(module), verbose).len() == 0,
{
    let after = tagged_module(module);
    hints_are_consumed(module);
    assert forall|b: int, i: int|
        #![trigger after[b][i]]
        0 <= b < after.len() && 0 <= i < after[b].len() implies (after[b][i] matches
        ModuleOpView::Function(function) ==> function.blocks.len() <= usize::MAX) by {
        let base = module_groups(module.take(b)) + ops_groups(module[b].take(i));
        assert(after[b][i] == tagged_op(module[b][i], base));
    }
    hint_free_modules_stay(after, verbose);
}

/// The exit of a terminator, if there is one.
pub open spec fn exit_of(terminator: Option<Terminator>) -> Option<Exit> {
    match terminator {
        Some(t) => Some(t.exit),
        None => None,
    }
}

/// The request on a terminator, if there is one.
pub open spec fn request_on(terminator: Option<Terminator>) -> Option<LlvmLoopUnrollAttr> {
    match terminator {
        Some(t) => t.request,
        None => None,
    }
}

/// The control flow and the operations other than hints stay: the same blocks
/// go to the same places, and the same loops remain.
pub proof fn control_flow_stays(function: FunctionView, base: nat, b: int)
    requires
        0 <= b < function.blocks.len(),
    ensures
        tagged(function, base).blocks.len() == function.blocks.len(),
        tagged(function, base).info == function.info,
        exit_of(tagged(function, base).blocks[b].terminator) == exit_of(
            function.blocks[b].terminator,
        ),
        tagged(function, base).blocks[b].ops == without_hints(function.blocks[b].ops),
{
}

/// Whether one of the hints is on a loop that a block is a latch of.
pub open spec fn is_hinted_latch(hints: Seq<Hint>, info: LoopInfoView, block: usize) -> bool {
    exists|i: int|
        #![trigger hints[i]]
        0 <= i < hints.len() && (info.innermost[hints[i].block as int] matches Some(l)
            && info.latches[l as int].contains(block))
}

/// A block has a governing hint exactly if it is a latch of a hinted loop.
proof fn governed_are_hinted_latches(hints: Seq<Hint>, info: LoopInfoView, block: usize)
    ensures
        governing_hint(hints, info, block) is Some <==> is_hinted_latch(hints, info, block),
    decreases hints.len(),
{
    if hints.len() > 0 {
        let shorter = hints.drop_last();
        governed_are_hinted_latches(shorter, info, block);
        assert(hints[hints.len() - 1] == hints.last());
        if is_hinted_latch(shorter, info, block) {
            let i = choose|i: int|
                #![trigger shorter[i]]
                0 <= i < shorter.len() && (info.innermost[shorter[i].block as int] matches Some(l)
                    && info.latches[l as int].contains(block));
            assert(hints[i] == shorter[i]);
        }
        if is_hinted_latch(hints, info, block) && governing_hint(shorter, info, block) is None {
            let i = choose|i: int|
                #![trigger hints[i]]
                0 <= i < hints.len() && (info.innermost[hints[i].block as int] matches Some(l)
                    && info.latches[l as int].contains(block));
            if i < shorter.len() {
                assert(shorter[i] == hints[i]);
            }
        }
    }
}

/// Only the latches of hinted loops are tagged: any other terminator stays.
pub proof fn other_loops_stay(function: FunctionView, base: nat, b: int)
    requires
        0 <= b < function.blocks.len(),
        !is_hinted_latch(hints(function.blocks), function.info, b as usize),
    ensures
        tagged(function, base).blocks[b].terminator == function.blocks[b].terminator,
{
    governed_are_hinted_latches(hints(function.blocks), function.info, b as usize);
}

/// A latch of a hinted loop that ends in a branch carries the request of its
/// governing hint.
pub proof fn hinted_latches_are_tagged(function: FunctionView, base: nat, b: int)
    requires
        0 <= b < function.blocks.len(),
        is_hinted_latch(hints(function.blocks), function.info, b as usize),
        function.blocks[b].terminator matches Some(t) && t.exit !is Other,
    ensures
        governing_hint(hints(function.blocks), function.info, b as usize) is Some,
        request_on(tagged(function, base).blocks[b].terminator) == Some(
            request_of(
                governing_hint(hints(function.blocks), function.info, b as usize)->0,
                hints(function.blocks),
                function.info,
                base,
            ),
        ),
{
    governed_are_hinted_latches(hints(function.blocks), function.info, b as usize);
}

/// The loop of the governing hint of a block.
pub open spec fn governing_loop(function: FunctionView, b: int) -> Option<usize> {
    match governing_hint(hints(function.blocks), function.info, b as usize) {
        Some(hint) => function.info.innermost[hint.block as int],
        None => None,
    }
}

/// The governing hints of two latches that are governed by one loop are the
/// same.
proof fn one_loop_has_one_governing_hint(
    hints: Seq<Hint>,
    info: LoopInfoView,
    b: usize,
    c: usize,
)
    requires
        governing_hint(hints, info, b) is Some,
        governing_hint(hints, info, c) is Some,
        info.innermost[governing_hint(hints, info, b)->0.block as int]
            == info.innermost[governing_hint(hints, info, c)->0.block as int],
    ensures
        governing_hint(hints, info, b) == governing_hint(hints, info, c),
    decreases hints.len(),
{
    governing_hint_is_on_a_loop(hints, info, b);
    governing_hint_is_on_a_loop(hints, info, c);
    if let Some(l) = info.innermost[hints.last().block as int] {
        if !info.latches[l as int].contains(b) && !info.latches[l as int].contains(c) {
            one_loop_has_one_governing_hint(hints.drop_last(), info, b, c);
        }
    } else {
        one_loop_has_one_governing_hint(hints.drop_last(), info, b, c);
    }
}

/// All latches that are governed by one loop carry the same request: one
/// factor, and one group.
pub proof fn latches_of_one_loop_share_a_request(
    function: FunctionView,
    base: nat,
    b: int,
    c: int,
)
    requires
        0 <= b < function.blocks.len(),
        0 <= c < function.blocks.len(),
        governing_loop(function, b) is Some,
        governing_loop(function, b) == governing_loop(function, c),
        function.blocks[b].terminator matches Some(t) && t.exit !is Other,
        function.blocks[c].terminator matches Some(t) && t.exit !is Other,
    ensures
        request_on(tagged(function, base).blocks[b].terminator) is Some,
        request_on(tagged(function, base).blocks[b].terminator) == request_on(
            tagged(function, base).blocks[c].terminator,
        ),
{
    one_loop_has_one_governing_hint(
        hints(function.blocks),
        function.info,
        b as usize,
        c as usize,
    );
}

/// Whether a loop has a hint.
pub open spec fn is_hinted(function: FunctionView, l: usize) -> bool {
    exists|i: int|
        #![trigger hints(function.blocks)[i]]
        0 <= i < hints(function.blocks).len() && function.info.innermost[hints(
            function.blocks,
        )[i].block as int] == Some(l)
}

/// Whether a block closes a loop, and no other hinted loop, with a branch.
pub open spec fn closes_only(function: FunctionView, b: int, l: usize) -> bool {
    &&& function.info.latches[l as int].contains(b as usize)
    &&& forall|m: usize|
        is_hinted(function, m) && #[trigger] function.info.latches[m as int].contains(b as usize)
            ==> m == l
    &&& function.blocks[b].terminator matches Some(t) && t.exit !is Other
}

/// A block that closes only one hinted loop is governed by that loop.
proof fn governed_by_the_loop_it_closes(function: FunctionView, b: int, l: usize)
    requires
        is_hinted(function, l),
        closes_only(function, b, l),
    ensures
        governing_loop(function, b) == Some(l),
{
    let all = hints(function.blocks);
    let i = choose|i: int|
        #![trigger all[i]]
        0 <= i < all.len() && function.info.innermost[all[i].block as int] == Some(l);
    assert(is_hinted_latch(all, function.info, b as usize)) by {
        assert(0 <= i < all.len() && (function.info.innermost[all[i].block as int] matches Some(m)
            && function.info.latches[m as int].contains(b as usize)));
    }
    governed_are_hinted_latches(all, function.info, b as usize);
    governing_hint_is_on_a_loop(all, function.info, b as usize);
    let hint = governing_hint(all, function.info, b as usize)->0;
    let j = all.index_of(hint);
    let m = function.info.innermost[hint.block as int]->0;
    assert(all[j] == hint);
    assert(is_hinted(function, m));
    assert(function.info.latches[m as int].contains(b as usize));
}

/// All latches of a hinted loop carry its group, and one factor.
pub proof fn every_latch_of_one_loop_shares_its_group(
    function: FunctionView,
    base: nat,
    l: usize,
    b: int,
    c: int,
)
    requires
        0 <= b < function.blocks.len(),
        0 <= c < function.blocks.len(),
        is_hinted(function, l),
        closes_only(function, b, l),
        closes_only(function, c, l),
    ensures
        request_on(tagged(function, base).blocks[b].terminator) matches Some(request)
            && request.group == group_of(
            hints(function.blocks),
            function.info,
            base,
            l,
        ) as u32,
        request_on(tagged(function, base).blocks[b].terminator) == request_on(
            tagged(function, base).blocks[c].terminator,
        ),
{
    governed_by_the_loop_it_closes(function, b, l);
    governed_by_the_loop_it_closes(function, c, l);
    latches_of_one_loop_share_a_request(function, base, b, c);
}

/// The groups of a function are the next ones from its base.
proof fn groups_are_in_range(function: FunctionView, base: nat, b: int)
    requires
        governing_loop(function, b) is Some,
    ensures
        ({
            let loops = hinted_loops(hints(function.blocks), function.info);
            let l = governing_loop(function, b)->0;
            let group = group_of(hints(function.blocks), function.info, base, l);
            &&& loops.no_duplicates()
            &&& base <= group < base + groups_needed(function)
            &&& loops[group - base] == l
        }),
{
    let all = hints(function.blocks);
    governing_hint_is_on_a_loop(all, function.info, b as usize);
    hinted_loops_are_listed_once(all, function.info);
    let hint = governing_hint(all, function.info, b as usize)->0;
    let i = all.index_of(hint);
    assert(all[i] == hint);
}

/// Latches of separate loops of one function carry separate groups.
pub proof fn separate_loops_get_separate_groups(
    function: FunctionView,
    base: nat,
    b: int,
    c: int,
)
    requires
        base + groups_needed(function) <= u32::MAX,
        0 <= b < function.blocks.len(),
        0 <= c < function.blocks.len(),
        governing_loop(function, b) is Some,
        governing_loop(function, c) is Some,
        governing_loop(function, b) != governing_loop(function, c),
        function.blocks[b].terminator matches Some(t) && t.exit !is Other,
        function.blocks[c].terminator matches Some(t) && t.exit !is Other,
    ensures
        request_on(tagged(function, base).blocks[b].terminator)->0.group != request_on(
            tagged(function, base).blocks[c].terminator,
        )->0.group,
{
    groups_are_in_range(function, base, b);
    groups_are_in_range(function, base, c);
}

/// Groups are counted on from an operation to every later one.
proof fn bases_are_apart(module: Seq<Seq<ModuleOpView>>, b: int, i: int, c: int, j: int)
    requires
        0 <= b <= c < module.len(),
        0 <= i < module[b].len(),
        0 <= j < module[c].len(),
        b < c || i < j,
    ensures
        base_at(module, b, i) + op_groups(module[b][i]) <= base_at(module, c, j),
{
    let ops = module[b];
    assert(ops.take(i + 1).drop_last() =~= ops.take(i));
    assert(ops.take(i + 1).last() == ops[i]);
    if b < c {
        ops_groups_grow(ops, i + 1);
        let blocks = module.take(c);
        module_groups_grow(blocks, b + 1);
        assert(blocks.take(b + 1) =~= module.take(b + 1));
        assert(module.take(b + 1).drop_last() =~= module.take(b));
        assert(module.take(b + 1).last() == ops);
    } else {
        ops_groups_grow(ops.take(j), i + 1);
        assert(ops.take(j).take(i + 1) =~= ops.take(i + 1));
    }
}

/// Latches of loops in separate functions of one module carry separate groups.
pub proof fn separate_functions_get_separate_groups(
    module: Seq<Seq<ModuleOpView>>,
    b: int,
    i: int,
    c: int,
    j: int,
    x: int,
    y: int,
)
    requires
        module_groups(module) <= u32::MAX,
        0 <= b <= c < module.len(),
        0 <= i < module[b].len(),
        0 <= j < module[c].len(),
        b < c || i < j,
        module[b][i] is Function,
        module[c][j] is Function,
        0 <= x < module[b][i]->Function_0.blocks.len(),
        0 <= y < module[c][j]->Function_0.blocks.len(),
        governing_loop(module[b][i]->Function_0, x) is Some,
        governing_loop(module[c][j]->Function_0, y) is Some,
        module[b][i]->Function_0.blocks[x].terminator matches Some(t) && t.exit !is Other,
        module[c][j]->Function_0.blocks[y].terminator matches Some(t) && t.exit !is Other,
    ensures
        request_on(tagged_module(module)[b][i]->Function_0.blocks[x].terminator)->0.group
            != request_on(tagged_module(module)[c][j]->Function_0.blocks[y].terminator)->0.group,
{
    let f = module[b][i]->Function_0;
    let g = module[c][j]->Function_0;
    bases_are_apart(module, b, i, c, j);
    groups_are_in_range(f, base_at(module, b, i), x);
    groups_are_in_range(g, base_at(module, c, j), y);
    assert(tagged_module(module)[b][i] == tagged_op(module[b][i], base_at(module, b, i)));
    assert(tagged_module(module)[c][j] == tagged_op(module[c][j], base_at(module, c, j)));
    assert(base_at(module, c, j) + op_groups(module[c][j]) <= module_groups(module)) by {
        let ops = module[c];
        assert(ops.take(j + 1).drop_last() =~= ops.take(j));
        assert(ops.take(j + 1).last() == ops[j]);
        ops_groups_grow(ops, j + 1);
        module_groups_grow(module, c + 1);
        assert(module.take(c + 1).drop_last() =~= module.take(c));
        assert(module.take(c + 1).last() == ops);
    }
}

/// A hint outside of loops is never dropped in silence.
pub proof fn stray_hints_are_said(
    hints: Seq<Hint>,
    info: LoopInfoView,
    base: nat,
    verbose: bool,
    i: int,
)
    requires
        0 <= i < hints.len(),
        info.innermost[hints[i].block as int] is None,
    ensures
        said(hints, info, base, verbose).contains(stray_text(hints[i].factor)),
    decreases hints.len(),
{
    let after = said(hints, info, base, verbose);
    let before = said(hints.drop_last(), info, base, verbose);
    if i == hints.len() - 1 {
        assert(after.last() == stray_text(hints[i].factor));
    } else {
        stray_hints_are_said(hints.drop_last(), info, base, verbose, i);
        let j = before.index_of(stray_text(hints[i].factor));
        assert(after[j] == before[j]);
    }
}

/// Hints need no more groups than there are hints.
pub proof fn groups_are_no_more_than_hints(hints: Seq<Hint>, info: LoopInfoView)
    ensures
        hinted_loops(hints, info).len() <= hints.len(),
    decreases hints.len(),
{
    if hints.len() > 0 {
        groups_are_no_more_than_hints(hints.drop_last(), info);
    }
}

} // verus!
