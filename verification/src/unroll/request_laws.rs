//! What becomes of each hint, told by the place that it stands at.

use crate::text::decimal;
use crate::unroll::laws::request_on;
use crate::unroll::{
    base_at, function_places, governing_hint, group_of, groups_needed, hinted_loops,
    hinted_loops_are_listed_once, hints, hints_in, is_addressable, is_function_place,
    module_groups, module_wf, op_at, op_wf, places_are_all, places_are_functions, places_in,
    request_spelling, said, said_at, said_of_module, said_of_op, tagged, tagged_module,
    with_request, without_hints, Block, BlockOp, BlockView, Exit, Function, FunctionView, Hint, LlvmLoopUnrollAttr, LoopInfo,
    LoopInfoView, Module, ModuleOp, ModuleOpView, Terminator,
};
use vstd::prelude::*;

verus! {

/// The places of the hints among operations of one block, in order.
pub open spec fn hint_places_in(ops: Seq<BlockOp>, block: int) -> Seq<(int, int)>
    decreases ops.len(),
{
    if ops.len() == 0 {
        seq![]
    } else {
        let before = hint_places_in(ops.drop_last(), block);
        if ops.last() is UnrollHint {
            before.push((block, ops.len() - 1))
        } else {
            before
        }
    }
}

/// The places of the hints of blocks, in order: a block, and a place there.
pub open spec fn hint_places(blocks: Seq<BlockView>) -> Seq<(int, int)>
    decreases blocks.len(),
{
    if blocks.len() == 0 {
        seq![]
    } else {
        hint_places(blocks.drop_last()) + hint_places_in(blocks.last().ops, blocks.len() - 1)
    }
}

/// Whether a hint stands at a place.
pub open spec fn is_hint_place(blocks: Seq<BlockView>, p: (int, int)) -> bool {
    &&& 0 <= p.0 < blocks.len()
    &&& 0 <= p.1 < blocks[p.0].ops.len()
    &&& blocks[p.0].ops[p.1] is UnrollHint
}

/// Whether a place comes before another one.
pub open spec fn comes_before(p: (int, int), q: (int, int)) -> bool {
    p.0 < q.0 || p.0 == q.0 && p.1 < q.1
}

/// Whether the innermost loop around a block has another block among its
/// latches.
pub open spec fn reaches(info: LoopInfoView, from: int, latch: int) -> bool {
    info.innermost[from] matches Some(l) && info.latches[l as int].contains(latch as usize)
}

proof fn hint_places_in_a_block(ops: Seq<BlockOp>, block: usize)
    ensures
        hints_in(ops, block).len() == hint_places_in(ops, block as int).len(),
        forall|k: int|
            #![trigger hints_in(ops, block)[k]]
            #![trigger hint_places_in(ops, block as int)[k]]
            0 <= k < hints_in(ops, block).len() ==> {
                let p = hint_places_in(ops, block as int)[k];
                &&& p.0 == block
                &&& 0 <= p.1 < ops.len()
                &&& ops[p.1] == (BlockOp::UnrollHint { factor: hints_in(ops, block)[k].factor })
                &&& hints_in(ops, block)[k].block == block
            },
        forall|j: int, k: int|
            #![trigger hint_places_in(ops, block as int)[j], hint_places_in(ops, block as int)[k]]
            0 <= j < k < hints_in(ops, block).len() ==> hint_places_in(ops, block as int)[j].1
                < hint_places_in(ops, block as int)[k].1,
        forall|i: int|
            #![trigger ops[i]]
            0 <= i < ops.len() && ops[i] is UnrollHint ==> hint_places_in(
                ops,
                block as int,
            ).contains((block as int, i)),
    decreases ops.len(),
{
    if ops.len() > 0 {
        let shorter = ops.drop_last();
        hint_places_in_a_block(shorter, block);
        let places = hint_places_in(ops, block as int);
        let before = hint_places_in(shorter, block as int);
        let found = hints_in(ops, block);
        let earlier = hints_in(shorter, block);
        assert forall|k: int|
            #![trigger found[k]]
            #![trigger places[k]]
            0 <= k < found.len() implies ({
            let p = places[k];
            &&& p.0 == block
            &&& 0 <= p.1 < ops.len()
            &&& ops[p.1] == (BlockOp::UnrollHint { factor: found[k].factor })
            &&& found[k].block == block
        }) by {
            if k < earlier.len() {
                assert(found[k] == earlier[k]);
                assert(places[k] == before[k]);
                assert(ops[before[k].1] == shorter[before[k].1]);
            }
        }
        assert forall|j: int, k: int|
            #![trigger places[j], places[k]]
            0 <= j < k < found.len() implies places[j].1 < places[k].1 by {
            assert(places[j] == before[j]);
            assert(earlier[j] == found[j]);
            if k < earlier.len() {
                assert(places[k] == before[k]);
            }
        }
        assert forall|i: int|
            #![trigger ops[i]]
            0 <= i < ops.len() && ops[i] is UnrollHint implies places.contains(
            (block as int, i),
        ) by {
            if i < shorter.len() {
                assert(shorter[i] == ops[i]);
                let k = before.index_of((block as int, i));
                assert(before.contains((block as int, i)));
                assert(places[k] == (block as int, i));
            } else {
                assert(places.last() == (block as int, i));
            }
        }
    }
}

/// The hints of blocks are the hint operations, each with its block and its
/// factor, block by block and in the order of each block.
pub proof fn hints_are_found_in_order(blocks: Seq<BlockView>)
    requires
        blocks.len() <= usize::MAX,
    ensures
        hints(blocks).len() == hint_places(blocks).len(),
        forall|k: int|
            #![trigger hints(blocks)[k]]
            #![trigger hint_places(blocks)[k]]
            0 <= k < hints(blocks).len() ==> {
                let p = hint_places(blocks)[k];
                &&& is_hint_place(blocks, p)
                &&& hints(blocks)[k].block == p.0
                &&& blocks[p.0].ops[p.1] == (BlockOp::UnrollHint {
                    factor: hints(blocks)[k].factor,
                })
            },
        forall|j: int, k: int|
            #![trigger hint_places(blocks)[j], hint_places(blocks)[k]]
            0 <= j < k < hints(blocks).len() ==> comes_before(
                hint_places(blocks)[j],
                hint_places(blocks)[k],
            ),
        forall|p: (int, int)|
            #![trigger is_hint_place(blocks, p)]
            is_hint_place(blocks, p) ==> hint_places(blocks).contains(p),
    decreases blocks.len(),
{
    if blocks.len() > 0 {
        let shorter = blocks.drop_last();
        let block = (blocks.len() - 1) as usize;
        let ops = blocks.last().ops;
        hints_are_found_in_order(shorter);
        hint_places_in_a_block(ops, block);
        let places = hint_places(blocks);
        let before = hint_places(shorter);
        let here = hint_places_in(ops, block as int);
        let found = hints(blocks);
        let earlier = hints(shorter);
        let inside = hints_in(ops, block);
        assert forall|k: int|
            #![trigger found[k]]
            #![trigger places[k]]
            0 <= k < found.len() implies ({
            let p = places[k];
            &&& is_hint_place(blocks, p)
            &&& found[k].block == p.0
            &&& blocks[p.0].ops[p.1] == (BlockOp::UnrollHint { factor: found[k].factor })
            &&& k < earlier.len() ==> p.0 < block
            &&& k >= earlier.len() ==> p.0 == block
        }) by {
            if k < earlier.len() {
                assert(found[k] == earlier[k]);
                assert(places[k] == before[k]);
                assert(is_hint_place(shorter, before[k]));
                assert(blocks[before[k].0] == shorter[before[k].0]);
            } else {
                assert(found[k] == inside[k - earlier.len()]);
                assert(places[k] == here[k - earlier.len()]);
            }
        }
        assert forall|j: int, k: int|
            #![trigger places[j], places[k]]
            0 <= j < k < found.len() implies comes_before(places[j], places[k]) by {
            if k < earlier.len() {
                assert(places[j] == before[j] && places[k] == before[k]);
            } else if j >= earlier.len() {
                assert(places[j] == here[j - earlier.len()]);
                assert(places[k] == here[k - earlier.len()]);
            }
        }
        assert forall|p: (int, int)|
            #![trigger is_hint_place(blocks, p)]
            is_hint_place(blocks, p) implies places.contains(p) by {
            if p.0 < shorter.len() {
                assert(shorter[p.0] == blocks[p.0]);
                assert(is_hint_place(shorter, p));
                let k = before.index_of(p);
                assert(places[k] == p);
            } else {
                assert(ops[p.1] is UnrollHint);
                assert(p == (block as int, p.1));
                let k = here.index_of(p);
                assert(here.contains(p));
                assert(places[before.len() + k] == p);
            }
        }
    }
}

/// The governing hint of a block is the last one that reaches it.
proof fn the_last_reaching_hint_governs(found: Seq<Hint>, info: LoopInfoView, block: usize, k: int)
    requires
        0 <= k < found.len(),
        reaches(info, found[k].block as int, block as int),
        forall|j: int|
            #![trigger found[j]]
            k < j < found.len() ==> !reaches(info, found[j].block as int, block as int),
    ensures
        governing_hint(found, info, block) == Some(found[k]),
    decreases found.len(),
{
    let shorter = found.drop_last();
    if k < found.len() - 1 {
        assert(!reaches(info, found[found.len() - 1].block as int, block as int));
        assert(shorter[k] == found[k]);
        assert forall|j: int| #![trigger shorter[j]] k < j < shorter.len() implies !reaches(
            info,
            shorter[j].block as int,
            block as int,
        ) by {
            assert(shorter[j] == found[j]);
        }
        the_last_reaching_hint_governs(shorter, info, block, k);
    }
}

/// No hint governs a block that none reaches.
proof fn unreached_blocks_are_not_governed(found: Seq<Hint>, info: LoopInfoView, block: usize)
    requires
        forall|j: int|
            #![trigger found[j]]
            0 <= j < found.len() ==> !reaches(info, found[j].block as int, block as int),
    ensures
        governing_hint(found, info, block) is None,
    decreases found.len(),
{
    if found.len() > 0 {
        let shorter = found.drop_last();
        assert(!reaches(info, found[found.len() - 1].block as int, block as int));
        assert forall|j: int| #![trigger shorter[j]] 0 <= j < shorter.len() implies !reaches(
            info,
            shorter[j].block as int,
            block as int,
        ) by {
            assert(shorter[j] == found[j]);
        }
        unreached_blocks_are_not_governed(shorter, info, block);
    }
}

/// Whether the hint at a place is the last one that reaches a block.
pub open spec fn is_last_to_reach(function: FunctionView, p: (int, int), b: int) -> bool {
    &&& is_hint_place(function.blocks, p)
    &&& reaches(function.info, p.0, b)
    &&& forall|q: (int, int)|
        #![trigger is_hint_place(function.blocks, q)]
        is_hint_place(function.blocks, q) && comes_before(p, q) ==> !reaches(
            function.info,
            q.0,
            b,
        )
}

proof fn last_to_reach_governs(function: FunctionView, p: (int, int), b: int)
    requires
        function.blocks.len() <= usize::MAX,
        0 <= b < function.blocks.len(),
        is_last_to_reach(function, p, b),
    ensures
        governing_hint(hints(function.blocks), function.info, b as usize) matches Some(hint)
            && hint.block == p.0 && function.blocks[p.0].ops[p.1] == (BlockOp::UnrollHint {
            factor: hint.factor,
        }),
{
    let found = hints(function.blocks);
    let places = hint_places(function.blocks);
    hints_are_found_in_order(function.blocks);
    assert(places.contains(p));
    let k = places.index_of(p);
    assert(places[k] == p);
    assert(found[k].block == p.0);
    assert forall|j: int| #![trigger found[j]] k < j < found.len() implies !reaches(
        function.info,
        found[j].block as int,
        b as usize as int,
    ) by {
        assert(comes_before(places[k], places[j]));
        assert(is_hint_place(function.blocks, places[j]));
    }
    the_last_reaching_hint_governs(found, function.info, b as usize, k);
}

/// A branch that closes a hinted loop asks for the factor of the last hint that
/// reaches it, whatever that factor is.
pub proof fn the_last_hint_sets_the_factor(
    function: FunctionView,
    base: nat,
    p: (int, int),
    b: int,
)
    requires
        function.blocks.len() <= usize::MAX,
        0 <= b < function.blocks.len(),
        function.blocks[b].terminator matches Some(t) && (t.exit is Goto || t.exit is CondBranch),
        is_last_to_reach(function, p, b),
    ensures
        request_on(tagged(function, base).blocks[b].terminator) matches Some(request)
            && function.blocks[p.0].ops[p.1] == (BlockOp::UnrollHint { factor: request.factor }),
{
    last_to_reach_governs(function, p, b);
}

/// Some hint is the last one that reaches a block, if one does.
proof fn last_hint_from(function: FunctionView, b: int, k: int) -> (p: (int, int))
    requires
        function.blocks.len() <= usize::MAX,
        0 <= k < hint_places(function.blocks).len(),
        exists|j: int|
            #![trigger hint_places(function.blocks)[j]]
            0 <= j <= k && reaches(function.info, hint_places(function.blocks)[j].0, b),
        forall|j: int|
            #![trigger hint_places(function.blocks)[j]]
            k < j < hint_places(function.blocks).len() ==> !reaches(
                function.info,
                hint_places(function.blocks)[j].0,
                b,
            ),
    ensures
        is_last_to_reach(function, p, b),
    decreases k,
{
    let places = hint_places(function.blocks);
    hints_are_found_in_order(function.blocks);
    if reaches(function.info, places[k].0, b) {
        let p = places[k];
        assert(is_hint_place(function.blocks, p));
        assert forall|q: (int, int)|
            #![trigger is_hint_place(function.blocks, q)]
            is_hint_place(function.blocks, q) && comes_before(p, q) implies !reaches(
            function.info,
            q.0,
            b,
        ) by {
            assert(places.contains(q));
            let j = places.index_of(q);
            assert(places[j] == q);
            if j < k {
                assert(comes_before(places[j], places[k]));
            }
        }
        p
    } else {
        let j = choose|j: int|
            #![trigger places[j]]
            0 <= j <= k && reaches(function.info, places[j].0, b);
        assert(j < k);
        last_hint_from(function, b, k - 1)
    }
}

/// Every branch that closes a hinted loop has a request, and the factor of the
/// last hint that reaches it.
pub proof fn hinted_latches_are_requested(
    function: FunctionView,
    base: nat,
    hint: (int, int),
    b: int,
)
    requires
        function.blocks.len() <= usize::MAX,
        0 <= b < function.blocks.len(),
        function.blocks[b].terminator matches Some(t) && (t.exit is Goto || t.exit is CondBranch),
        is_hint_place(function.blocks, hint),
        reaches(function.info, hint.0, b),
    ensures
        request_on(tagged(function, base).blocks[b].terminator) is Some,
        exists|p: (int, int)| #[trigger]
            is_last_to_reach(function, p, b) && function.blocks[p.0].ops[p.1] == (
            BlockOp::UnrollHint {
                factor: request_on(tagged(function, base).blocks[b].terminator)->0.factor,
            }),
{
    let places = hint_places(function.blocks);
    hints_are_found_in_order(function.blocks);
    assert(places.contains(hint));
    let k = places.index_of(hint);
    assert(places[k] == hint);
    let p = last_hint_from(function, b, places.len() - 1);
    the_last_hint_sets_the_factor(function, base, p, b);
}

/// A terminator that is no branch, and one that no hint reaches, stays with
/// whatever request it had.
pub proof fn unreached_and_other_terminators_stay(function: FunctionView, base: nat, b: int)
    requires
        function.blocks.len() <= usize::MAX,
        0 <= b < function.blocks.len(),
        (forall|p: (int, int)|
            #![trigger is_hint_place(function.blocks, p)]
            is_hint_place(function.blocks, p) ==> !reaches(function.info, p.0, b)) || (
        function.blocks[b].terminator matches Some(t) ==> t.exit is Other),
    ensures
        tagged(function, base).blocks[b].terminator == function.blocks[b].terminator,
{
    let found = hints(function.blocks);
    let places = hint_places(function.blocks);
    hints_are_found_in_order(function.blocks);
    if forall|p: (int, int)|
        #![trigger is_hint_place(function.blocks, p)]
        is_hint_place(function.blocks, p) ==> !reaches(function.info, p.0, b) {
        assert forall|j: int| #![trigger found[j]] 0 <= j < found.len() implies !reaches(
            function.info,
            found[j].block as int,
            b as usize as int,
        ) by {
            assert(is_hint_place(function.blocks, places[j]));
        }
        unreached_blocks_are_not_governed(found, function.info, b as usize);
    }
}

/// The loops that are hinted before a place.
pub open spec fn hinted_before(function: FunctionView, p: (int, int)) -> Set<usize> {
    Set::new(
        |l: usize|
            exists|q: (int, int)|
                #![trigger is_hint_place(function.blocks, q)]
                is_hint_place(function.blocks, q) && comes_before(q, p)
                    && function.info.innermost[q.0] == Some(l),
    )
}

/// Whether the hint at a place is the first one on a loop.
pub open spec fn is_first_on(function: FunctionView, p: (int, int), l: usize) -> bool {
    &&& is_hint_place(function.blocks, p)
    &&& function.info.innermost[p.0] == Some(l)
    &&& !hinted_before(function, p).contains(l)
}

/// Every hinted loop has a first hint.
pub proof fn hinted_loops_have_a_first_hint(function: FunctionView, hint: (int, int), l: usize)
    requires
        function.blocks.len() <= usize::MAX,
        is_hint_place(function.blocks, hint),
        function.info.innermost[hint.0] == Some(l),
    ensures
        exists|first: (int, int)| #[trigger] is_first_on(function, first, l),
    decreases hint_places(function.blocks).index_of(hint),
{
    let places = hint_places(function.blocks);
    hints_are_found_in_order(function.blocks);
    assert(places.contains(hint));
    let k = places.index_of(hint);
    assert(places[k] == hint);
    if hinted_before(function, hint).contains(l) {
        let q = choose|q: (int, int)|
            #![trigger is_hint_place(function.blocks, q)]
            is_hint_place(function.blocks, q) && comes_before(q, hint)
                && function.info.innermost[q.0] == Some(l);
        assert(places.contains(q));
        let j = places.index_of(q);
        assert(places[j] == q);
        if j > k {
            assert(comes_before(places[k], places[j]));
        }
        hinted_loops_have_a_first_hint(function, q, l);
    } else {
        assert(is_first_on(function, hint, l));
    }
}

/// The listed loops are those of the hints.
proof fn listed_loops_have_hints(found: Seq<Hint>, info: LoopInfoView, l: usize)
    requires
        hinted_loops(found, info).contains(l),
    ensures
        exists|j: int|
            #![trigger found[j]]
            0 <= j < found.len() && info.innermost[found[j].block as int] == Some(l),
    decreases found.len(),
{
    if found.len() > 0 {
        let shorter = found.drop_last();
        let before = hinted_loops(shorter, info);
        if before.contains(l) {
            listed_loops_have_hints(shorter, info, l);
            let j = choose|j: int|
                #![trigger shorter[j]]
                0 <= j < shorter.len() && info.innermost[shorter[j].block as int] == Some(l);
            assert(found[j] == shorter[j]);
        } else {
            let i = hinted_loops(found, info).index_of(l);
            assert(hinted_loops(found, info)[i] == l);
            if i < before.len() {
                assert(before[i] == l);
            }
            assert(found[found.len() - 1] == found.last());
        }
    }
}

/// A loop is listed after the loops that are hinted before it.
proof fn listed_loops_keep_their_rank(found: Seq<Hint>, info: LoopInfoView, k: int, n: int)
    requires
        0 <= k <= n <= found.len(),
    ensures
        hinted_loops(found.take(k), info).is_prefix_of(hinted_loops(found.take(n), info)),
    decreases n - k,
{
    if k == n {
        assert(hinted_loops(found.take(n), info) =~= hinted_loops(found.take(n), info).take(
            hinted_loops(found.take(n), info).len() as int,
        ));
    } else {
        listed_loops_keep_their_rank(found, info, k, n - 1);
        assert(found.take(n).drop_last() =~= found.take(n - 1));
        let before = hinted_loops(found.take(n - 1), info);
        let after = hinted_loops(found.take(n), info);
        assert(before.is_prefix_of(after));
    }
}

/// The loops hinted before a place, listed.
proof fn hinted_before_is_listed(function: FunctionView, k: int)
    requires
        function.blocks.len() <= usize::MAX,
        0 <= k <= hints(function.blocks).len(),
    ensures
        ({
            let listed = hinted_loops(hints(function.blocks).take(k), function.info);
            let places = hint_places(function.blocks);
            &&& k < places.len() ==> hinted_before(function, places[k]) == listed.to_set()
                && hinted_before(function, places[k]).len() == listed.len()
            &&& k == places.len() ==> hinted_before(
                function,
                (function.blocks.len() as int, 0),
            ) == listed.to_set() && hinted_before(
                function,
                (function.blocks.len() as int, 0),
            ).len() == listed.len()
        }),
{
    let found = hints(function.blocks);
    let places = hint_places(function.blocks);
    hints_are_found_in_order(function.blocks);
    let p = if k < places.len() {
        places[k]
    } else {
        (function.blocks.len() as int, 0int)
    };
    let shorter = found.take(k);
    let listed = hinted_loops(shorter, function.info);
    hinted_loops_are_listed_once(shorter, function.info);
    let wanted = hinted_before(function, p);
    assert forall|l: usize| wanted.contains(l) <==> listed.to_set().contains(l) by {
        if wanted.contains(l) {
            let q = choose|q: (int, int)|
                #![trigger is_hint_place(function.blocks, q)]
                is_hint_place(function.blocks, q) && comes_before(q, p)
                    && function.info.innermost[q.0] == Some(l);
            assert(places.contains(q));
            let j = places.index_of(q);
            assert(places[j] == q);
            if j >= k {
                if k < places.len() && j > k {
                    assert(comes_before(places[k], places[j]));
                }
                assert(false);
            }
            assert(shorter[j] == found[j]);
            assert(listed.contains(l));
        }
        if listed.contains(l) {
            listed_loops_have_hints(shorter, function.info, l);
            let j = choose|j: int|
                #![trigger shorter[j]]
                0 <= j < shorter.len() && function.info.innermost[shorter[j].block as int] == Some(
                    l,
                );
            assert(shorter[j] == found[j]);
            assert(is_hint_place(function.blocks, places[j]));
            if k < places.len() {
                assert(comes_before(places[j], places[k]));
            }
        }
    }
    assert(wanted =~= listed.to_set());
    listed.unique_seq_to_set();
}

/// A branch that closes a hinted loop has the group of the loop of the last
/// hint that reaches it; a loop's group is the number of loops that are hinted
/// before its first hint, counted from the base.
pub proof fn groups_follow_first_hints(
    function: FunctionView,
    base: nat,
    p: (int, int),
    first: (int, int),
    b: int,
)
    requires
        function.blocks.len() <= usize::MAX,
        base + groups_needed(function) <= u32::MAX,
        0 <= b < function.blocks.len(),
        function.blocks[b].terminator matches Some(t) && (t.exit is Goto || t.exit is CondBranch),
        is_last_to_reach(function, p, b),
        is_first_on(function, first, function.info.innermost[p.0]->0),
    ensures
        request_on(tagged(function, base).blocks[b].terminator) matches Some(request)
            && request.group == base + hinted_before(function, first).len(),
{
    let found = hints(function.blocks);
    let places = hint_places(function.blocks);
    let info = function.info;
    let l = info.innermost[p.0]->0;
    last_to_reach_governs(function, p, b);
    hints_are_found_in_order(function.blocks);
    assert(places.contains(first));
    let k = places.index_of(first);
    assert(places[k] == first);
    assert(found[k].block == first.0);
    hinted_before_is_listed(function, k);
    let rank = hinted_loops(found.take(k), info).len() as int;
    let all = hinted_loops(found, info);
    assert(!hinted_loops(found.take(k), info).to_set().contains(l));
    assert(!hinted_loops(found.take(k), info).contains(l));
    assert(found.take(k + 1).drop_last() =~= found.take(k));
    assert(found.take(k + 1).last() == found[k]);
    assert(hinted_loops(found.take(k + 1), info) == hinted_loops(found.take(k), info).push(l));
    assert(hinted_loops(found.take(k + 1), info)[rank] == l);
    listed_loops_keep_their_rank(found, info, k + 1, found.len() as int);
    assert(found.take(found.len() as int) =~= found);
    assert(all[rank] == l);
    hinted_loops_are_listed_once(found, info);
    assert(all.contains(l));
    assert(all.index_of(l) == rank);
}

/// A function takes one group for each loop that has a hint, and counts on from
/// its base.
pub proof fn hinted_loops_take_one_group_each(function: FunctionView)
    requires
        function.blocks.len() <= usize::MAX,
    ensures
        groups_needed(function) == Set::new(
            |l: usize|
                exists|q: (int, int)|
                    #![trigger is_hint_place(function.blocks, q)]
                    is_hint_place(function.blocks, q) && function.info.innermost[q.0] == Some(l),
        ).len(),
{
    let found = hints(function.blocks);
    let wanted = Set::new(
        |l: usize|
            exists|q: (int, int)|
                #![trigger is_hint_place(function.blocks, q)]
                is_hint_place(function.blocks, q) && function.info.innermost[q.0] == Some(l),
    );
    hints_are_found_in_order(function.blocks);
    hinted_before_is_listed(function, found.len() as int);
    assert(found.take(found.len() as int) =~= found);
    let end = (function.blocks.len() as int, 0int);
    assert(hinted_before(function, end) =~= wanted) by {
        assert forall|l: usize| hinted_before(function, end).contains(l) <==> wanted.contains(l) by {
            if wanted.contains(l) {
                let q = choose|q: (int, int)|
                    #![trigger is_hint_place(function.blocks, q)]
                    is_hint_place(function.blocks, q) && function.info.innermost[q.0] == Some(l);
                assert(comes_before(q, end));
            }
        }
    }
}

/// Operations other than hints are kept, in order, and hints are not.
pub proof fn other_operations_are_kept(a: Seq<BlockOp>, c: Seq<BlockOp>, id: u64, factor: u32)
    ensures
        without_hints(a + c) == without_hints(a) + without_hints(c),
        without_hints(seq![BlockOp::Other { id }]) == seq![BlockOp::Other { id }],
        without_hints(seq![BlockOp::UnrollHint { factor }]) == Seq::<BlockOp>::empty(),
        without_hints(seq![]) == Seq::<BlockOp>::empty(),
{
    let keep = |op: BlockOp| op !is UnrollHint;
    Seq::filter_distributes_over_add(a, c, keep);
    reveal_with_fuel(Seq::filter, 3);
    let other = seq![BlockOp::Other { id }];
    let hint = seq![BlockOp::UnrollHint { factor }];
    assert(other.drop_last() =~= seq![]);
    assert(hint.drop_last() =~= seq![]);
    assert(Seq::<BlockOp>::empty().filter(keep) =~= seq![]);
    assert(without_hints(other) =~= other);
    assert(without_hints(hint) =~= seq![]);
    assert(without_hints(seq![]) =~= seq![]);
}

/// The blocks, the loops and the kept operations of a function are those that
/// it had, and every terminator goes where it went.
pub proof fn functions_keep_their_shape(function: FunctionView, base: nat, b: int)
    requires
        0 <= b < function.blocks.len(),
    ensures
        tagged(function, base).blocks.len() == function.blocks.len(),
        tagged(function, base).info == function.info,
        tagged(function, base).blocks[b].ops == function.blocks[b].ops.filter(
            |op: BlockOp| op is Other,
        ),
        tagged(function, base).blocks[b].terminator is Some <==> function.blocks[b].terminator is Some,
        function.blocks[b].terminator is Some ==> tagged(
            function,
            base,
        ).blocks[b].terminator->0.exit == function.blocks[b].terminator->0.exit,
{
    let keep = |op: BlockOp| op !is UnrollHint;
    let stay = |op: BlockOp| op is Other;
    assert forall|op: BlockOp| #[trigger] keep(op) == stay(op) by {}
    assert(keep =~= stay);
}

/// A request goes onto a branch and replaces the one there; other terminators
/// stay.
pub proof fn requests_go_onto_branches(
    request: LlvmLoopUnrollAttr,
    had: Option<LlvmLoopUnrollAttr>,
    target: usize,
    on_true: usize,
    on_false: usize,
    id: u64,
)
    ensures
        with_request(Some(Terminator { exit: Exit::Goto { target }, request: had }), request)
            == Some(Terminator { exit: Exit::Goto { target }, request: Some(request) }),
        with_request(
            Some(Terminator { exit: Exit::CondBranch { on_true, on_false }, request: had }),
            request,
        ) == Some(
            Terminator { exit: Exit::CondBranch { on_true, on_false }, request: Some(request) },
        ),
        with_request(Some(Terminator { exit: Exit::Other { id }, request: had }), request) == Some(
            Terminator { exit: Exit::Other { id }, request: had },
        ),
        with_request(None, request) is None,
{
}

/// A request for a full unroll is written without a factor, any other one with
/// its factor.
pub proof fn requests_are_written_with_their_factor(factor: u32)
    ensures
        request_spelling(0) == "#[llvm_unroll]"@,
        factor != 0 ==> request_spelling(factor) == "#[llvm_unroll("@ + decimal(factor as nat)
            + ")]"@,
{
}

/// The warning about a hint outside of loops, in full.
pub open spec fn warning(factor: u32) -> Seq<char> {
    if factor == 0 {
        "warning: "@ + "#[llvm_unroll]"@
            + " requested but no metadata was attached: the annotation is not inside a recognizable loop"@
    } else {
        "warning: "@ + ("#[llvm_unroll("@ + decimal(factor as nat) + ")]"@)
            + " requested but no metadata was attached: the annotation is not inside a recognizable loop"@
    }
}

/// The note about a hint on a loop, in full.
pub open spec fn note(l: usize, factor: u32, group: nat, latches: nat) -> Seq<char> {
    "llvm-unroll: loop#"@ + decimal(l as nat) + " factor="@ + decimal(factor as nat) + " group="@
        + decimal(group) + " latches="@ + decimal(latches)
}

/// Without progress notes, the warnings about the hints outside of loops are
/// said, one for each and in order, and nothing else.
pub proof fn only_strays_are_warned_about(
    a: Seq<Hint>,
    c: Seq<Hint>,
    hint: Hint,
    info: LoopInfoView,
    base: nat,
)
    ensures
        said(a + c, info, base, false) == said(a, info, base, false) + said(c, info, base, false),
        info.innermost[hint.block as int] is None ==> said(seq![hint], info, base, false) == seq![
            warning(hint.factor),
        ],
        info.innermost[hint.block as int] is Some ==> said(seq![hint], info, base, false).len()
            == 0,
        said(seq![], info, base, false).len() == 0,
    decreases c.len(),
{
    if c.len() == 0 {
        assert(a + c =~= a);
        assert(said(c, info, base, false) =~= seq![]);
        assert(said(a, info, base, false) =~= said(a, info, base, false) + said(
            c,
            info,
            base,
            false,
        ));
    } else {
        only_strays_are_warned_about(a, c.drop_last(), hint, info, base);
        assert((a + c).drop_last() =~= a + c.drop_last());
        assert((a + c).last() == c.last());
        assert(said(a + c, info, base, false) =~= said(a, info, base, false) + said(
            c,
            info,
            base,
            false,
        ));
    }
    let one = seq![hint];
    assert(one.drop_last() =~= seq![]);
    assert(said(one.drop_last(), info, base, false) =~= seq![]);
}

/// With progress notes, one line is said about each hint, in order: a warning
/// outside of loops, and on a loop a note of the loop, the factor, the group and
/// the number of latches.
pub proof fn every_hint_is_told(function: FunctionView, base: nat, p: (int, int), k: int)
    requires
        function.blocks.len() <= usize::MAX,
        base + groups_needed(function) <= u32::MAX,
        0 <= k < hint_places(function.blocks).len(),
        hint_places(function.blocks)[k] == p,
    ensures
        ({
            let lines = said(hints(function.blocks), function.info, base, true);
            let factor = function.blocks[p.0].ops[p.1]->UnrollHint_factor;
            &&& lines.len() == hint_places(function.blocks).len()
            &&& match function.info.innermost[p.0] {
                None => lines[k] == warning(factor),
                Some(l) => forall|first: (int, int)| #[trigger]
                    is_first_on(function, first, l) ==> lines[k] == note(
                        l,
                        factor,
                        base + hinted_before(function, first).len(),
                        function.info.latches[l as int].len(),
                    ),
            }
        }),
{
    let found = hints(function.blocks);
    let places = hint_places(function.blocks);
    let info = function.info;
    hints_are_found_in_order(function.blocks);
    told_one_by_one(found, info, base, k);
    assert(found[k].block == p.0);
    if let Some(l) = info.innermost[p.0] {
        assert forall|first: (int, int)| #[trigger]
            is_first_on(function, first, l) implies said(found, info, base, true)[k] == note(
            l,
            found[k].factor,
            base + hinted_before(function, first).len(),
            info.latches[l as int].len(),
        ) by {
            assert(places.contains(first));
            let j = places.index_of(first);
            assert(places[j] == first);
            assert(found[j].block == first.0);
            if k < j {
                assert(is_hint_place(function.blocks, places[k]));
                assert(comes_before(places[k], places[j]));
                assert(hinted_before(function, first).contains(l));
            }
            hinted_before_is_listed(function, j);
            let rank = hinted_loops(found.take(j), info).len() as int;
            let all = hinted_loops(found.take(k + 1), info);
            assert(!hinted_loops(found.take(j), info).to_set().contains(l));
            assert(found.take(j + 1).drop_last() =~= found.take(j));
            assert(found.take(j + 1).last() == found[j]);
            assert(hinted_loops(found.take(j + 1), info) == hinted_loops(found.take(j), info).push(
                l,
            ));
            assert(hinted_loops(found.take(j + 1), info)[rank] == l);
            listed_loops_keep_their_rank(found, info, j + 1, k + 1);
            listed_loops_keep_their_rank(found, info, k + 1, found.len() as int);
            assert(found.take(found.len() as int) =~= found);
            assert(all[rank] == l);
            hinted_loops_are_listed_once(found.take(k + 1), info);
            assert(all.contains(l));
            assert(all.index_of(l) == rank);
            assert(rank < all.len() <= hinted_loops(found, info).len());
        }
    }
}

proof fn told_one_by_one(found: Seq<Hint>, info: LoopInfoView, base: nat, k: int)
    requires
        0 <= k < found.len(),
    ensures
        said(found, info, base, true).len() == found.len(),
        said(found, info, base, true)[k] == (match info.innermost[found[k].block as int] {
            None => warning(found[k].factor),
            Some(l) => note(
                l,
                found[k].factor,
                group_of(found.take(k + 1), info, base, l) as u32 as nat,
                info.latches[l as int].len(),
            ),
        }),
    decreases found.len(),
{
    let shorter = found.drop_last();
    if found.len() > 1 {
        told_one_by_one(shorter, info, base, if k < shorter.len() { k } else { 0 });
    } else {
        assert(said(shorter, info, base, true).len() == 0);
    }
    if k < shorter.len() {
        assert(shorter[k] == found[k]);
        assert(shorter.take(k + 1) =~= found.take(k + 1));
    } else {
        assert(found.take(k + 1) =~= found);
    }
}

/// Each operation of a module stays at its place: a function is tagged from the
/// first group that is free there, anything else stays.
pub proof fn modules_are_tagged_place_by_place(module: Seq<Seq<ModuleOpView>>, b: int, i: int)
    requires
        0 <= b < module.len(),
        0 <= i < module[b].len(),
    ensures
        tagged_module(module).len() == module.len(),
        tagged_module(module)[b].len() == module[b].len(),
        module[b][i] is Other ==> tagged_module(module)[b][i] == module[b][i],
        module[b][i] matches ModuleOpView::Function(function) ==> tagged_module(module)[b][i]
            == ModuleOpView::Function(tagged(function, base_at(module, b, i))),
{
}

/// Groups are counted from zero over the whole module: the operation after a
/// function starts from as many more as the function takes, and other
/// operations take none.
pub proof fn groups_are_counted_on(module: Seq<Seq<ModuleOpView>>, b: int, i: int)
    requires
        0 <= b < module.len(),
        0 <= i < module[b].len(),
    ensures
        base_at(module, 0, 0) == 0,
        module[b][i] is Other ==> base_at(module, b, i + 1) == base_at(module, b, i),
        module[b][i] matches ModuleOpView::Function(function) ==> base_at(module, b, i + 1)
            == base_at(module, b, i) + groups_needed(function),
        b + 1 < module.len() ==> base_at(module, b + 1, 0) == base_at(
            module,
            b,
            module[b].len() as int,
        ),
        base_at(module, module.len() - 1, module[module.len() - 1].len() as int) == module_groups(
            module,
        ),
{
    let ops = module[b];
    assert(module.take(0) =~= seq![]);
    assert(module[0].take(0) =~= seq![]);
    assert(ops.take(i + 1).drop_last() =~= ops.take(i));
    assert(ops.take(i + 1).last() == ops[i]);
    assert(ops.take(ops.len() as int) =~= ops);
    assert(module.take(b + 1).drop_last() =~= module.take(b));
    assert(module.take(b + 1).last() == ops);
    if b + 1 < module.len() {
        assert(module[b + 1].take(0) =~= seq![]);
    }
    let last = module.last();
    assert(last.take(last.len() as int) =~= last);
    assert(module.drop_last() =~= module.take(module.len() - 1));
}

proof fn places_of_a_block_ascend(ops: Seq<ModuleOpView>, block: usize)
    requires
        ops.len() <= usize::MAX,
    ensures
        forall|j: int, k: int|
            #![trigger places_in(ops, block)[j], places_in(ops, block)[k]]
            0 <= j < k < places_in(ops, block).len() ==> places_in(ops, block)[j].1 < places_in(
                ops,
                block,
            )[k].1,
        forall|k: int|
            #![trigger places_in(ops, block)[k]]
            0 <= k < places_in(ops, block).len() ==> places_in(ops, block)[k].0 == block
                && places_in(ops, block)[k].1 < ops.len(),
    decreases ops.len(),
{
    if ops.len() > 0 {
        let before = places_in(ops.drop_last(), block);
        let places = places_in(ops, block);
        places_of_a_block_ascend(ops.drop_last(), block);
        assert forall|k: int| #![trigger places[k]] 0 <= k < places.len() implies places[k].0
            == block && places[k].1 < ops.len() by {
            if k < before.len() {
                assert(places[k] == before[k]);
            }
        }
        assert forall|j: int, k: int|
            #![trigger places[j], places[k]]
            0 <= j < k < places.len() implies places[j].1 < places[k].1 by {
            assert(places[j] == before[j]);
            if k < before.len() {
                assert(places[k] == before[k]);
            }
        }
    }
}

proof fn places_ascend(module: Seq<Seq<ModuleOpView>>)
    requires
        is_addressable(module),
    ensures
        forall|j: int, k: int|
            #![trigger function_places(module)[j], function_places(module)[k]]
            0 <= j < k < function_places(module).len() ==> comes_before(
                (function_places(module)[j].0 as int, function_places(module)[j].1 as int),
                (function_places(module)[k].0 as int, function_places(module)[k].1 as int),
            ),
        forall|k: int|
            #![trigger function_places(module)[k]]
            0 <= k < function_places(module).len() ==> function_places(module)[k].0 < module.len(),
    decreases module.len(),
{
    if module.len() > 0 {
        let shorter = module.drop_last();
        assert forall|b: int| 0 <= b < shorter.len() implies (#[trigger] shorter[b]).len()
            <= usize::MAX by {
            assert(shorter[b] == module[b]);
        }
        places_ascend(shorter);
        let block = (module.len() - 1) as usize;
        assert(module[module.len() - 1].len() <= usize::MAX);
        places_of_a_block_ascend(module.last(), block);
        let before = function_places(shorter);
        let here = places_in(module.last(), block);
        let places = function_places(module);
        assert(places == before + here);
        assert forall|j: int, k: int|
            #![trigger places[j], places[k]]
            0 <= j < k < places.len() implies comes_before(
            (places[j].0 as int, places[j].1 as int),
            (places[k].0 as int, places[k].1 as int),
        ) by {
            if k < before.len() {
                assert(places[j] == before[j] && places[k] == before[k]);
            } else {
                assert(places[k] == here[k - before.len()]);
                if j < before.len() {
                    assert(places[j] == before[j]);
                } else {
                    assert(places[j] == here[j - before.len()]);
                }
            }
        }
    }
}

/// The functions of a module are found at their places, block by block and in
/// the order of each block: all of them, and nothing else.
pub proof fn functions_are_found_in_order(module: Seq<Seq<ModuleOpView>>)
    requires
        is_addressable(module),
    ensures
        forall|k: int|
            #![trigger function_places(module)[k]]
            0 <= k < function_places(module).len() ==> {
                let place = function_places(module)[k];
                &&& place.0 < module.len()
                &&& place.1 < module[place.0 as int].len()
                &&& module[place.0 as int][place.1 as int] is Function
            },
        forall|j: int, k: int|
            #![trigger function_places(module)[j], function_places(module)[k]]
            0 <= j < k < function_places(module).len() ==> comes_before(
                (function_places(module)[j].0 as int, function_places(module)[j].1 as int),
                (function_places(module)[k].0 as int, function_places(module)[k].1 as int),
            ),
        forall|b: int, i: int|
            #![trigger module[b][i]]
            0 <= b < module.len() && 0 <= i < module[b].len() && module[b][i] is Function
                ==> function_places(module).contains((b as usize, i as usize)),
{
    places_are_functions(module, module.len() as int);
    assert(module.take(module.len() as int) =~= module);
    places_ascend(module);
    assert forall|k: int| #![trigger function_places(module)[k]] 0 <= k < function_places(
        module,
    ).len() implies ({
        let place = function_places(module)[k];
        &&& place.0 < module.len()
        &&& place.1 < module[place.0 as int].len()
        &&& module[place.0 as int][place.1 as int] is Function
    }) by {
        assert(is_function_place(module, function_places(module)[k]));
    }
    assert forall|b: int, i: int|
        #![trigger module[b][i]]
        0 <= b < module.len() && 0 <= i < module[b].len()
            && module[b][i] is Function implies function_places(module).contains(
        (b as usize, i as usize),
    ) by {
        places_are_all(module, module.len() as int, b, i);
    }
}

/// What is said about a module is what is said about its functions, one after
/// the other.
pub proof fn modules_are_told_function_by_function(
    module: Seq<Seq<ModuleOpView>>,
    p: Seq<(usize, usize)>,
    q: Seq<(usize, usize)>,
    place: (usize, usize),
    verbose: bool,
)
    ensures
        said_of_module(module, verbose) == said_at(module, function_places(module), verbose),
        said_at(module, p + q, verbose) == said_at(module, p, verbose) + said_at(
            module,
            q,
            verbose,
        ),
        said_at(module, seq![], verbose).len() == 0,
        module[place.0 as int][place.1 as int] matches ModuleOpView::Function(function) ==> said_at(
            module,
            seq![place],
            verbose,
        ) == said(
            hints(function.blocks),
            function.info,
            base_at(module, place.0 as int, place.1 as int),
            verbose,
        ),
    decreases q.len(),
{
    if q.len() == 0 {
        assert(p + q =~= p);
        assert(said_at(module, p, verbose) =~= said_at(module, p, verbose) + said_at(
            module,
            q,
            verbose,
        ));
    } else {
        modules_are_told_function_by_function(module, p, q.drop_last(), place, verbose);
        assert((p + q).drop_last() =~= p + q.drop_last());
        assert((p + q).last() == q.last());
        assert(said_at(module, p + q, verbose) =~= said_at(module, p, verbose) + said_at(
            module,
            q,
            verbose,
        ));
    }
    let one = seq![place];
    assert(one.drop_last() =~= seq![]);
    assert(one.last() == place);
    assert(said_at(module, one.drop_last(), verbose) =~= seq![]);
    assert(said_at(module, one, verbose) =~= said_of_op(
        op_at(module, place),
        base_at(module, place.0 as int, place.1 as int),
        verbose,
    ));
}

/// Views show what blocks, functions and modules hold, at each place.
pub proof fn views_show_what_is_held(
    block: Block,
    info: LoopInfo,
    function: Function,
    module: Module,
    b: int,
    i: int,
)
    ensures
        block@.ops == block.ops@ && block@.terminator == block.terminator,
        info@.innermost == info.innermost@ && info@.latches.len() == info.loops@.len(),
        0 <= b < info.loops@.len() ==> info@.latches[b] == info.loops@[b].latches@,
        function@.info == function.info@ && function@.blocks.len() == function.blocks@.len(),
        0 <= b < function.blocks@.len() ==> function@.blocks[b] == function.blocks@[b]@,
        module@.len() == module.blocks@.len(),
        0 <= b < module.blocks@.len() ==> module@[b].len() == module.blocks@[b]@.len(),
        0 <= b < module.blocks@.len() && 0 <= i < module.blocks@[b]@.len() ==> (
        match module.blocks@[b]@[i] {
            ModuleOp::Function(held) => module@[b][i] == ModuleOpView::Function(held@),
            ModuleOp::Other { id } => module@[b][i] == (ModuleOpView::Other { id }),
        }),
{
}

/// All that is asked of a function is that its loops are loops among its
/// blocks, and of a module that its functions are such.
pub proof fn loops_among_blocks_are_enough(
    function: FunctionView,
    module: Seq<Seq<ModuleOpView>>,
    id: u64,
)
    ensures
        function.info.innermost.len() == function.blocks.len() && (forall|b: int|
            #![trigger function.info.innermost[b]]
            0 <= b < function.blocks.len() && function.info.innermost[b] is Some
                ==> function.info.innermost[b]->0 < function.info.latches.len()) && (forall|
            l: int,
            i: int,
        |
            #![trigger function.info.latches[l][i]]
            0 <= l < function.info.latches.len() && 0 <= i < function.info.latches[l].len()
                ==> function.info.latches[l][i] < function.blocks.len()) ==> function.wf(),
        function.wf() ==> op_wf(ModuleOpView::Function(function)),
        op_wf(ModuleOpView::Other { id }),
        (forall|b: int, i: int|
            #![trigger module[b][i]]
            0 <= b < module.len() && 0 <= i < module[b].len() ==> op_wf(module[b][i]))
            ==> module_wf(module),
{
}

} // verus!
