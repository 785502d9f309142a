//! Loop-unroll requests: from hints in loop bodies to the branches that close
//! the loops.
//!
//! A hint asks that the innermost loop around it be unrolled. The pass moves
//! each request onto the latches of its loop, where lowering turns it into
//! `!llvm.loop` metadata, and leaves the control flow as it is. All latches of
//! one loop share a group, since they have to refer to one metadata node.

pub mod laws;
pub mod request_laws;

use crate::text::{decimal, decimal_text, push_text, texts};
use crate::unroll::laws::hint_free_functions_stay;
use vstd::prelude::*;

verus! {

/// The unroll request on a branch. A factor of zero asks for a full unroll;
/// branches with one group close one loop.
#[derive(Debug, Clone, Copy, PartialEq, Eq, Structural)]
pub struct LlvmLoopUnrollAttr {
    pub factor: u32,
    pub group: u32,
}

/// Where a terminator goes.
#[derive(Debug, Clone, Copy, PartialEq, Eq, Structural)]
pub enum Exit {
    /// `mir.goto`.
    Goto { target: usize },
    /// `mir.cond_br`.
    CondBranch { on_true: usize, on_false: usize },
    /// Any other terminator, by a number of the caller's choice.
    Other { id: u64 },
}

/// The last operation of a block.
#[derive(Debug, Clone, Copy, PartialEq, Eq, Structural)]
pub struct Terminator {
    pub exit: Exit,
    pub request: Option<LlvmLoopUnrollAttr>,
}

/// An operation of a block before its terminator.
#[derive(Debug, Clone, Copy, PartialEq, Eq, Structural)]
pub enum BlockOp {
    /// `mir.llvm_unroll_hint`.
    UnrollHint { factor: u32 },
    /// Any other operation, by a number of the caller's choice.
    Other { id: u64 },
}

/// A basic block.
#[derive(Debug, PartialEq, Eq)]
pub struct Block {
    pub ops: Vec<BlockOp>,
    pub terminator: Option<Terminator>,
}

/// A natural loop, by the blocks that branch back to its header.
#[derive(Debug, PartialEq, Eq)]
pub struct NaturalLoop {
    pub latches: Vec<usize>,
}

/// The natural loops of a region.
#[derive(Debug, PartialEq, Eq)]
pub struct LoopInfo {
    pub loops: Vec<NaturalLoop>,
    /// For each block, the innermost loop that holds it.
    pub innermost: Vec<Option<usize>>,
}

/// `mir.func`: the blocks of its region, and the loops among them.
#[derive(Debug, PartialEq, Eq)]
pub struct Function {
    pub blocks: Vec<Block>,
    pub info: LoopInfo,
}

/// An operation of a module.
#[derive(Debug, PartialEq, Eq)]
pub enum ModuleOp {
    /// `mir.func`.
    Function(Function),
    /// Any other operation, by a number of the caller's choice.
    Other { id: u64 },
}

/// A module, by the operations in each block of its region.
#[derive(Debug, PartialEq, Eq)]
pub struct Module {
    pub blocks: Vec<Vec<ModuleOp>>,
}

/// [`Block`] by what it holds.
#[verifier::ext_equal]
pub struct BlockView {
    pub ops: Seq<BlockOp>,
    pub terminator: Option<Terminator>,
}

/// [`LoopInfo`] by what it holds: the latches of each loop, and the innermost
/// loop of each block.
#[verifier::ext_equal]
pub struct LoopInfoView {
    pub latches: Seq<Seq<usize>>,
    pub innermost: Seq<Option<usize>>,
}

/// [`Function`] by what it holds.
#[verifier::ext_equal]
pub struct FunctionView {
    pub blocks: Seq<BlockView>,
    pub info: LoopInfoView,
}

/// [`ModuleOp`] by what it holds.
#[verifier::ext_equal]
pub enum ModuleOpView {
    Function(FunctionView),
    Other { id: u64 },
}

impl View for Block {
    type V = BlockView;

    open spec fn view(&self) -> BlockView {
        BlockView { ops: self.ops@, terminator: self.terminator }
    }
}

impl View for LoopInfo {
    type V = LoopInfoView;

    open spec fn view(&self) -> LoopInfoView {
        LoopInfoView {
            latches: self.loops@.map_values(|l: NaturalLoop| l.latches@),
            innermost: self.innermost@,
        }
    }
}

impl View for Function {
    type V = FunctionView;

    open spec fn view(&self) -> FunctionView {
        FunctionView { blocks: block_views(self.blocks@), info: self.info@ }
    }
}

impl View for ModuleOp {
    type V = ModuleOpView;

    open spec fn view(&self) -> ModuleOpView {
        match self {
            ModuleOp::Function(function) => ModuleOpView::Function(function@),
            ModuleOp::Other { id } => ModuleOpView::Other { id: *id },
        }
    }
}

impl View for Module {
    type V = Seq<Seq<ModuleOpView>>;

    open spec fn view(&self) -> Seq<Seq<ModuleOpView>> {
        self.blocks@.map_values(|ops: Vec<ModuleOp>| op_views(ops@))
    }
}

/// What the operations of a list hold.
pub open spec fn op_views(ops: Seq<ModuleOp>) -> Seq<ModuleOpView> {
    ops.map_values(|op: ModuleOp| op@)
}

/// What the blocks of a list hold.
pub open spec fn block_views(blocks: Seq<Block>) -> Seq<BlockView> {
    blocks.map_values(|b: Block| b@)
}

impl FunctionView {
    /// Whether the loops are loops among the blocks.
    pub open spec fn wf(self) -> bool {
        &&& self.info.innermost.len() == self.blocks.len()
        &&& forall|b: int|
            #![trigger self.info.innermost[b]]
            0 <= b < self.info.innermost.len() ==> (self.info.innermost[b] matches Some(l) ==> l
                < self.info.latches.len())
        &&& forall|l: int, i: int|
            #![trigger self.info.latches[l][i]]
            0 <= l < self.info.latches.len() && 0 <= i < self.info.latches[l].len()
                ==> self.info.latches[l][i] < self.blocks.len()
    }
}

/// A hint, by the block that it stands in and its factor.
#[derive(Debug, Clone, Copy, PartialEq, Eq, Structural)]
pub struct Hint {
    pub block: usize,
    pub factor: u32,
}

/// The hints among operations of one block, in order.
pub open spec fn hints_in(ops: Seq<BlockOp>, block: usize) -> Seq<Hint>
    decreases ops.len(),
{
    if ops.len() == 0 {
        seq![]
    } else {
        let before = hints_in(ops.drop_last(), block);
        match ops.last() {
            BlockOp::UnrollHint { factor } => before.push(Hint { block, factor }),
            BlockOp::Other { .. } => before,
        }
    }
}

/// The hints of blocks, in order.
pub open spec fn hints(blocks: Seq<BlockView>) -> Seq<Hint>
    decreases blocks.len(),
{
    if blocks.len() == 0 {
        seq![]
    } else {
        hints(blocks.drop_last()) + hints_in(blocks.last().ops, (blocks.len() - 1) as usize)
    }
}

/// The operations that are no hints, in order.
pub open spec fn without_hints(ops: Seq<BlockOp>) -> Seq<BlockOp> {
    ops.filter(|op: BlockOp| op !is UnrollHint)
}

/// The hinted loops, in the order of their first hints.
pub open spec fn hinted_loops(hints: Seq<Hint>, info: LoopInfoView) -> Seq<usize>
    decreases hints.len(),
{
    if hints.len() == 0 {
        seq![]
    } else {
        let before = hinted_loops(hints.drop_last(), info);
        match info.innermost[hints.last().block as int] {
            Some(l) if !before.contains(l) => before.push(l),
            _ => before,
        }
    }
}

/// The group of a hinted loop: groups are counted from `base` in the order of
/// the first hints.
pub open spec fn group_of(hints: Seq<Hint>, info: LoopInfoView, base: nat, l: usize) -> nat {
    base + hinted_loops(hints, info).index_of(l) as nat
}

/// The last hint on a loop that a block is a latch of, if there is one.
pub open spec fn governing_hint(hints: Seq<Hint>, info: LoopInfoView, block: usize) -> Option<Hint>
    decreases hints.len(),
{
    if hints.len() == 0 {
        None
    } else {
        match info.innermost[hints.last().block as int] {
            Some(l) if info.latches[l as int].contains(block) => Some(hints.last()),
            _ => governing_hint(hints.drop_last(), info, block),
        }
    }
}

/// The request that a hint makes.
pub open spec fn request_of(
    hint: Hint,
    hints: Seq<Hint>,
    info: LoopInfoView,
    base: nat,
) -> LlvmLoopUnrollAttr {
    LlvmLoopUnrollAttr {
        factor: hint.factor,
        group: group_of(hints, info, base, info.innermost[hint.block as int]->0) as u32,
    }
}

/// A terminator with a request, if it is a branch; as it was otherwise.
pub open spec fn with_request(
    terminator: Option<Terminator>,
    request: LlvmLoopUnrollAttr,
) -> Option<Terminator> {
    match terminator {
        Some(t) if t.exit !is Other => Some(Terminator { exit: t.exit, request: Some(request) }),
        _ => terminator,
    }
}

/// The terminator of a block once the hints have been followed.
pub open spec fn tagged_terminator(
    terminator: Option<Terminator>,
    hints: Seq<Hint>,
    info: LoopInfoView,
    base: nat,
    block: usize,
) -> Option<Terminator> {
    match governing_hint(hints, info, block) {
        Some(hint) => with_request(terminator, request_of(hint, hints, info, base)),
        None => terminator,
    }
}

/// A function once its hints have been followed and taken out.
pub open spec fn tagged(function: FunctionView, base: nat) -> FunctionView {
    FunctionView {
        blocks: Seq::new(
            function.blocks.len(),
            |b: int|
                BlockView {
                    ops: without_hints(function.blocks[b].ops),
                    terminator: tagged_terminator(
                        function.blocks[b].terminator,
                        hints(function.blocks),
                        function.info,
                        base,
                        b as usize,
                    ),
                },
        ),
        info: function.info,
    }
}

/// The number of groups that a function needs.
pub open spec fn groups_needed(function: FunctionView) -> nat {
    hinted_loops(hints(function.blocks), function.info).len()
}

/// How a request with a factor is written in source.
pub open spec fn request_spelling(factor: u32) -> Seq<char> {
    if factor == 0 {
        "#[llvm_unroll]"@
    } else {
        "#[llvm_unroll("@ + decimal(factor as nat) + ")]"@
    }
}

/// The warning about a hint outside of loops.
pub open spec fn stray_text(factor: u32) -> Seq<char> {
    "warning: "@ + request_spelling(factor)
        + " requested but no metadata was attached: the annotation is not inside a recognizable loop"@
}

/// The progress note about a hint on a loop.
pub open spec fn attached_text(l: usize, factor: u32, group: u32, latches: nat) -> Seq<char> {
    "llvm-unroll: loop#"@ + decimal(l as nat) + " factor="@ + decimal(factor as nat) + " group="@
        + decimal(group as nat) + " latches="@ + decimal(latches)
}

/// What is said about hints: a warning about each one outside of loops, and,
/// if progress is wanted, a note about each other one.
pub open spec fn said(
    hints: Seq<Hint>,
    info: LoopInfoView,
    base: nat,
    verbose: bool,
) -> Seq<Seq<char>>
    decreases hints.len(),
{
    if hints.len() == 0 {
        seq![]
    } else {
        let before = said(hints.drop_last(), info, base, verbose);
        let hint = hints.last();
        match info.innermost[hint.block as int] {
            None => before.push(stray_text(hint.factor)),
            Some(l) if verbose => before.push(
                attached_text(
                    l,
                    hint.factor,
                    request_of(hint, hints, info, base).group,
                    info.latches[l as int].len(),
                ),
            ),
            _ => before,
        }
    }
}

/// How a request with a factor is written in source.
pub fn request_kind(factor: u32) -> (r: String)
    ensures
        r@ == request_spelling(factor),
{
    if factor == 0 {
        "#[llvm_unroll]".to_owned()
    } else {
        "#[llvm_unroll(".to_owned().concat(decimal_text(factor as u64).as_str()).concat(")]")
    }
}

/// Adds the hints of one block to a list.
fn collect_block_hints(ops: &Vec<BlockOp>, block: usize, out: &mut Vec<Hint>)
    ensures
        final(out)@ == old(out)@ + hints_in(ops@, block),
{
    let ghost before = out@;
    assert(ops@.take(0) =~= seq![]);
    assert(out@ =~= before + hints_in(ops@.take(0), block));
    for i in 0..ops.len()
        invariant
            out@ == before + hints_in(ops@.take(i as int), block),
    {
        assert(ops@.take(i + 1).drop_last() =~= ops@.take(i as int));
        if let BlockOp::UnrollHint { factor } = ops[i] {
            out.push(Hint { block, factor });
        }
        assert(out@ =~= before + hints_in(ops@.take(i + 1), block));
    }
    assert(ops@.take(ops.len() as int) =~= ops@);
}

/// The hints of blocks, each with the block that it stands in and its factor.
pub fn collect_hints(blocks: &Vec<Block>) -> (r: Vec<Hint>)
    ensures
        r@ == hints(block_views(blocks@)),
{
    let mut out: Vec<Hint> = Vec::new();
    let ghost views = block_views(blocks@);
    assert(views.take(0) =~= seq![]);
    for b in 0..blocks.len()
        invariant
            views == block_views(blocks@),
            out@ == hints(views.take(b as int)),
    {
        assert(views.take(b + 1).drop_last() =~= views.take(b as int));
        collect_block_hints(&blocks[b].ops, b, &mut out);
    }
    assert(views.take(blocks.len() as int) =~= views);
    out
}

/// Puts a request on the terminator of a latch, if it is a branch.
pub fn set_latch_request(blocks: &mut Vec<Block>, latch: usize, request: LlvmLoopUnrollAttr)
    requires
        latch < old(blocks)@.len(),
    ensures
        final(blocks)@.len() == old(blocks)@.len(),
        block_views(final(blocks)@) == block_views(old(blocks)@).update(
            latch as int,
            (BlockView {
                ops: old(blocks)@[latch as int].ops@,
                terminator: with_request(old(blocks)@[latch as int].terminator, request),
            }),
        ),
{
    if let Some(terminator) = blocks[latch].terminator {
        let is_branch = match terminator.exit {
            Exit::Goto { .. } | Exit::CondBranch { .. } => true,
            Exit::Other { .. } => false,
        };
        if is_branch {
            blocks[latch].terminator = Some(
                Terminator { exit: terminator.exit, request: Some(request) },
            );
        }
    }
    assert(block_views(blocks@) =~= block_views(old(blocks)@).update(
        latch as int,
        (BlockView {
            ops: old(blocks)@[latch as int].ops@,
            terminator: with_request(old(blocks)@[latch as int].terminator, request),
        }),
    ));
}

/// Hinted loops are listed once each, and every hint on a loop has its loop
/// listed.
proof fn hinted_loops_are_listed_once(hints: Seq<Hint>, info: LoopInfoView)
    ensures
        hinted_loops(hints, info).no_duplicates(),
        forall|i: int|
            #![trigger hints[i]]
            0 <= i < hints.len() ==> (info.innermost[hints[i].block as int] matches Some(l)
                ==> hinted_loops(hints, info).contains(l)),
    decreases hints.len(),
{
    if hints.len() > 0 {
        let shorter = hints.drop_last();
        hinted_loops_are_listed_once(shorter, info);
        let before = hinted_loops(shorter, info);
        let after = hinted_loops(hints, info);
        assert forall|l: usize| before.contains(l) implies after.contains(l) by {
            let i = before.index_of(l);
            assert(after[i] == l);
        }
        if let Some(l) = info.innermost[hints.last().block as int] {
            if !before.contains(l) {
                assert(after.last() == l);
            }
        }
        assert forall|i: int|
            #![trigger hints[i]]
            0 <= i < hints.len() implies (info.innermost[hints[i].block as int] matches Some(l)
                ==> after.contains(l)) by {
            if i < shorter.len() {
                assert(shorter[i] == hints[i]);
            }
        }
    }
}

/// A further hint leaves the groups of the hinted loops as they are.
proof fn groups_stay(hints: Seq<Hint>, info: LoopInfoView, base: nat, l: usize)
    requires
        hints.len() > 0,
        hinted_loops(hints.drop_last(), info).contains(l),
    ensures
        hinted_loops(hints, info).contains(l),
        group_of(hints, info, base, l) == group_of(hints.drop_last(), info, base, l),
{
    hinted_loops_are_listed_once(hints, info);
    hinted_loops_are_listed_once(hints.drop_last(), info);
    let before = hinted_loops(hints.drop_last(), info);
    let after = hinted_loops(hints, info);
    assert(after[before.index_of(l)] == l);
}

/// The number of hinted loops grows with the hints.
proof fn hinted_loops_grow(hints: Seq<Hint>, info: LoopInfoView, k: int)
    requires
        0 <= k <= hints.len(),
    ensures
        hinted_loops(hints.take(k), info).len() <= hinted_loops(hints, info).len(),
    decreases hints.len() - k,
{
    if k == hints.len() {
        assert(hints.take(k) =~= hints);
    } else {
        hinted_loops_grow(hints, info, k + 1);
        assert(hints.take(k + 1).drop_last() =~= hints.take(k));
    }
}

/// The governing hint of a block is one of the hints, on a loop that the block
/// is a latch of.
proof fn governing_hint_is_on_a_loop(hints: Seq<Hint>, info: LoopInfoView, block: usize)
    ensures
        governing_hint(hints, info, block) matches Some(hint) ==> {
            &&& hints.contains(hint)
            &&& info.innermost[hint.block as int] is Some
            &&& info.latches[info.innermost[hint.block as int]->0 as int].contains(block)
        },
    decreases hints.len(),
{
    if hints.len() > 0 {
        let shorter = hints.drop_last();
        governing_hint_is_on_a_loop(shorter, info, block);
        assert(hints[hints.len() - 1] == hints.last());
        if let Some(hint) = governing_hint(shorter, info, block) {
            let i = shorter.index_of(hint);
            assert(hints[i] == hint);
        }
    }
}

/// What a further hint does to a terminator: a latch of its loop gets its
/// request, and any other terminator stays.
proof fn further_hint(
    terminator: Option<Terminator>,
    hints: Seq<Hint>,
    info: LoopInfoView,
    base: nat,
    block: usize,
)
    requires
        hints.len() > 0,
    ensures
        tagged_terminator(terminator, hints, info, base, block) == (match info.innermost[
        hints.last().block as int] {
            Some(l) if info.latches[l as int].contains(block) => with_request(
                tagged_terminator(terminator, hints.drop_last(), info, base, block),
                request_of(hints.last(), hints, info, base),
            ),
            _ => tagged_terminator(terminator, hints.drop_last(), info, base, block),
        }),
{
    let shorter = hints.drop_last();
    governing_hint_is_on_a_loop(shorter, info, block);
    if let Some(hint) = governing_hint(shorter, info, block) {
        hinted_loops_are_listed_once(shorter, info);
        let i = shorter.index_of(hint);
        assert(shorter[i] == hint);
        groups_stay(hints, info, base, info.innermost[hint.block as int]->0);
    }
}

/// Puts a request on the terminators of latches.
fn set_latch_requests(blocks: &mut Vec<Block>, latches: &Vec<usize>, request: LlvmLoopUnrollAttr)
    requires
        forall|i: int| 0 <= i < latches@.len() ==> #[trigger] latches@[i] < old(blocks)@.len(),
    ensures
        final(blocks)@.len() == old(blocks)@.len(),
        forall|b: int|
            #![trigger final(blocks)@[b]]
            0 <= b < final(blocks)@.len() ==> final(blocks)@[b].ops@ == old(blocks)@[b].ops@
                && final(blocks)@[b].terminator == (if latches@.contains(b as usize) {
                with_request(old(blocks)@[b].terminator, request)
            } else {
                old(blocks)@[b].terminator
            }),
{
    let ghost before = blocks@;
    let ghost count: usize = blocks.len();
    for i in 0..latches.len()
        invariant
            count == before.len(),
            blocks@.len() == before.len(),
            forall|j: int| 0 <= j < latches@.len() ==> #[trigger] latches@[j] < before.len(),
            forall|b: int|
                #![trigger blocks@[b]]
                0 <= b < blocks@.len() ==> blocks@[b].ops@ == before[b].ops@
                    && blocks@[b].terminator == (if latches@.take(i as int).contains(b as usize) {
                    with_request(before[b].terminator, request)
                } else {
                    before[b].terminator
                }),
    {
        let ghost current = blocks@;
        set_latch_request(blocks, latches[i], request);
        assert forall|b: int| #![trigger blocks@[b]] 0 <= b < blocks@.len() implies blocks@[b].ops@
            == before[b].ops@ && blocks@[b].terminator == (if latches@.take(i + 1).contains(
            b as usize,
        ) {
            with_request(before[b].terminator, request)
        } else {
            before[b].terminator
        }) by {
            assert(block_views(blocks@)[b] == blocks@[b]@);
            assert(block_views(current)[b] == current[b]@);
            assert(current[b].ops@ == before[b].ops@);
            let shorter = latches@.take(i as int);
            let longer = latches@.take(i + 1);
            assert(longer =~= shorter.push(latches@[i as int]));
            if shorter.contains(b as usize) {
                let j = shorter.index_of(b as usize);
                assert(longer[j] == b as usize);
            }
            if b == latches@[i as int] {
                assert(longer[i as int] == b as usize);
            } else if longer.contains(b as usize) {
                let j = longer.index_of(b as usize);
                assert(shorter[j] == b as usize);
            }
        }
    }
    assert(latches@.take(latches.len() as int) =~= latches@);
}

/// The group that a loop already has, if any.
fn find_group(groups: &Vec<(usize, u32)>, l: usize) -> (r: Option<u32>)
    ensures
        match r {
            Some(group) => groups@.contains((l, group)),
            None => forall|i: int| 0 <= i < groups@.len() ==> (#[trigger] groups@[i]).0 != l,
        },
{
    for i in 0..groups.len()
        invariant
            forall|j: int| 0 <= j < i ==> (#[trigger] groups@[j]).0 != l,
    {
        if groups[i].0 == l {
            assert(groups@[i as int] == (l, groups@[i as int].1));
            return Some(groups[i].1);
        }
    }
    None
}

/// Takes the hints out of one block.
fn drop_block_hints(ops: &Vec<BlockOp>) -> (r: Vec<BlockOp>)
    ensures
        r@ == without_hints(ops@),
{
    let mut kept: Vec<BlockOp> = Vec::new();
    let ghost keep = |op: BlockOp| op !is UnrollHint;
    assert(ops@.take(0).filter(keep) =~= seq![]) by {
        reveal(Seq::filter);
    }
    for i in 0..ops.len()
        invariant
            keep == (|op: BlockOp| op !is UnrollHint),
            kept@ == ops@.take(i as int).filter(keep),
    {
        assert(ops@.take(i + 1).drop_last() =~= ops@.take(i as int));
        assert(ops@.take(i + 1).filter(keep) == (if keep(ops@[i as int]) {
            ops@.take(i as int).filter(keep).push(ops@[i as int])
        } else {
            ops@.take(i as int).filter(keep)
        })) by {
            reveal(Seq::filter);
        }
        match ops[i] {
            BlockOp::UnrollHint { .. } => {},
            BlockOp::Other { id } => {
                kept.push(BlockOp::Other { id });
            },
        }
    }
    assert(ops@.take(ops.len() as int) =~= ops@);
    kept
}

/// Takes the hints out of all blocks.
fn drop_hints(blocks: &mut Vec<Block>)
    ensures
        final(blocks)@.len() == old(blocks)@.len(),
        forall|b: int|
            #![trigger final(blocks)@[b]]
            0 <= b < final(blocks)@.len() ==> final(blocks)@[b].ops@ == without_hints(
                old(blocks)@[b].ops@,
            ) && final(blocks)@[b].terminator == old(blocks)@[b].terminator,
{
    let ghost before = blocks@;
    let count = blocks.len();
    for b in 0..count
        invariant
            count == before.len(),
            blocks@.len() == before.len(),
            forall|c: int|
                #![trigger blocks@[c]]
                0 <= c < blocks@.len() ==> blocks@[c].terminator == before[c].terminator
                    && blocks@[c].ops@ == (if c < b {
                    without_hints(before[c].ops@)
                } else {
                    before[c].ops@
                }),
    {
        let kept = drop_block_hints(&blocks[b].ops);
        blocks[b].ops = kept;
    }
}

/// The hints of one block stand in that block.
proof fn hints_in_stand_in(ops: Seq<BlockOp>, block: usize)
    ensures
        forall|i: int|
            0 <= i < hints_in(ops, block).len() ==> (#[trigger] hints_in(ops, block)[i]).block
                == block,
    decreases ops.len(),
{
    if ops.len() > 0 {
        let before = hints_in(ops.drop_last(), block);
        let after = hints_in(ops, block);
        hints_in_stand_in(ops.drop_last(), block);
        assert forall|i: int| 0 <= i < after.len() implies (#[trigger] after[i]).block == block by {
            if i < before.len() {
                assert(after[i] == before[i]);
            }
        }
    }
}

/// Hints stand in blocks.
proof fn hints_stand_in_blocks(blocks: Seq<BlockView>)
    requires
        blocks.len() <= usize::MAX,
    ensures
        forall|i: int|
            0 <= i < hints(blocks).len() ==> (#[trigger] hints(blocks)[i]).block < blocks.len(),
    decreases blocks.len(),
{
    if blocks.len() > 0 {
        let before = hints(blocks.drop_last());
        let here = hints_in(blocks.last().ops, (blocks.len() - 1) as usize);
        hints_stand_in_blocks(blocks.drop_last());
        hints_in_stand_in(blocks.last().ops, (blocks.len() - 1) as usize);
        assert forall|i: int| 0 <= i < hints(blocks).len() implies (#[trigger] hints(
            blocks,
        )[i]).block < blocks.len() by {
            if i < before.len() {
                assert(hints(blocks)[i] == before[i]);
            } else {
                assert(hints(blocks)[i] == here[i - before.len()]);
            }
        }
    }
}

/// The line about a hint outside of loops.
fn stray_line(factor: u32) -> (r: String)
    ensures
        r@ == stray_text(factor),
{
    "warning: ".to_owned().concat(request_kind(factor).as_str()).concat(
        " requested but no metadata was attached: the annotation is not inside a recognizable loop",
    )
}

/// The line about a hint on a loop.
fn attached_line(l: usize, factor: u32, group: u32, latches: usize) -> (r: String)
    ensures
        r@ == attached_text(l, factor, group, latches as nat),
{
    "llvm-unroll: loop#".to_owned().concat(decimal_text(l as u64).as_str()).concat(
        " factor=",
    ).concat(decimal_text(factor as u64).as_str()).concat(" group=").concat(
        decimal_text(group as u64).as_str(),
    ).concat(" latches=").concat(decimal_text(latches as u64).as_str())
}

/// Moves the hints of one function onto the latches of their loops. Groups are
/// counted from `base`; the next free group is returned. What is to be said
/// goes to `lines`.
pub fn tag_function(
    function: &mut Function,
    base: u32,
    verbose: bool,
    lines: &mut Vec<String>,
) -> (next: u32)
    requires
        old(function)@.wf(),
        base + groups_needed(old(function)@) <= u32::MAX,
    ensures
        final(function)@ == tagged(old(function)@, base as nat),
        next == base + groups_needed(old(function)@),
        texts(final(lines)@) == texts(old(lines)@) + said(
            hints(old(function)@.blocks),
            old(function)@.info,
            base as nat,
            verbose,
        ),
{
    let found = collect_hints(&function.blocks);
    let ghost before = function@;
    let ghost info = function@.info;
    let ghost earlier = texts(lines@);
    let ghost all = hints(before.blocks);
    let ghost count: usize = function.blocks.len();
    proof {
        assert(before.blocks.len() == count);
        hints_stand_in_blocks(before.blocks);
    }
    if found.len() == 0 {
        proof {
            hint_free_functions_stay(before, base as nat, verbose);
            assert(texts(lines@) =~= earlier + said(all, info, base as nat, verbose));
        }
        return base;
    }
    let mut next_group: u32 = base;
    let mut groups: Vec<(usize, u32)> = Vec::new();
    assert(all.take(0) =~= seq![]);
    assert(earlier =~= earlier + said(all.take(0), info, base as nat, verbose));
    for k in 0..found.len()
        invariant
            found@ == all,
            all == hints(before.blocks),
            before.wf(),
            info == before.info,
            count == before.blocks.len(),
            forall|i: int| 0 <= i < all.len() ==> (#[trigger] all[i]).block < before.blocks.len(),
            base + hinted_loops(all, info).len() <= u32::MAX,
            function.info@ == info,
            function.blocks@.len() == before.blocks.len(),
            forall|b: int|
                #![trigger function.blocks@[b]]
                0 <= b < before.blocks.len() ==> function.blocks@[b].ops@ == before.blocks[b].ops
                    && function.blocks@[b].terminator == tagged_terminator(
                    before.blocks[b].terminator,
                    all.take(k as int),
                    info,
                    base as nat,
                    b as usize,
                ),
            groups@.len() == hinted_loops(all.take(k as int), info).len(),
            forall|i: int|
                #![trigger groups@[i]]
                0 <= i < groups@.len() ==> groups@[i].0 == hinted_loops(
                    all.take(k as int),
                    info,
                )[i] && groups@[i].1 == base + i,
            next_group == base + groups@.len(),
            texts(lines@) == earlier + said(all.take(k as int), info, base as nat, verbose),
    {
        let hint = found[k];
        let ghost shorter = all.take(k as int);
        let ghost longer = all.take(k + 1);
        let ghost seen = hinted_loops(shorter, info);
        proof {
            assert(longer.drop_last() =~= shorter);
            assert(longer.last() == hint);
            hinted_loops_grow(all, info, k + 1);
            hinted_loops_are_listed_once(longer, info);
            assert forall|b: int| 0 <= b < before.blocks.len() implies #[trigger] tagged_terminator(
                before.blocks[b].terminator,
                longer,
                info,
                base as nat,
                b as usize,
            ) == (match info.innermost[hint.block as int] {
                Some(l) if info.latches[l as int].contains(b as usize) => with_request(
                    tagged_terminator(
                        before.blocks[b].terminator,
                        shorter,
                        info,
                        base as nat,
                        b as usize,
                    ),
                    request_of(hint, longer, info, base as nat),
                ),
                _ => tagged_terminator(
                    before.blocks[b].terminator,
                    shorter,
                    info,
                    base as nat,
                    b as usize,
                ),
            }) by {
                further_hint(before.blocks[b].terminator, longer, info, base as nat, b as usize);
            }
        }
        match function.info.innermost[hint.block] {
            None => {
                push_text(lines, stray_line(hint.factor).as_str());
                assert(texts(lines@) =~= earlier + said(longer, info, base as nat, verbose));
            },
            Some(l) => {
                let group: u32 = match find_group(&groups, l) {
                    Some(group) => {
                        proof {
                            let i = groups@.index_of((l, group));
                            assert(groups@[i] == (l, group));
                            assert(seen[i] == l);
                            assert(hinted_loops(longer, info) == seen);
                        }
                        group
                    },
                    None => {
                        assert(!seen.contains(l)) by {
                            if seen.contains(l) {
                                let i = seen.index_of(l);
                                assert(groups@[i].0 == seen[i]);
                            }
                        }
                        assert(hinted_loops(longer, info) == seen.push(l));
                        assert(hinted_loops(longer, info)[seen.len() as int] == l);
                        let group: u32 = next_group;
                        next_group = next_group + 1;
                        groups.push((l, group));
                        group
                    },
                };
                let ghost request = request_of(hint, longer, info, base as nat);
                assert(group == request.group) by {
                    let i = (group - base) as int;
                    assert(groups@[i].0 == l && groups@[i].1 == group);
                    assert(hinted_loops(longer, info)[i] == l);
                }
                proof {
                    assert(info.latches[l as int] == function.info.loops@[l as int].latches@);
                    assert forall|i: int|
                        0 <= i < info.latches[l as int].len() implies #[trigger] function.info.loops@[l as int].latches@[i]
                        < before.blocks.len() by {
                        assert(info.latches[l as int][i] < before.blocks.len());
                    }
                }
                set_latch_requests(
                    &mut function.blocks,
                    &function.info.loops[l].latches,
                    LlvmLoopUnrollAttr { factor: hint.factor, group },
                );
                if verbose {
                    push_text(
                        lines,
                        attached_line(
                            l,
                            hint.factor,
                            group,
                            function.info.loops[l].latches.len(),
                        ).as_str(),
                    );
                }
                assert(texts(lines@) =~= earlier + said(longer, info, base as nat, verbose));
            },
        }
    }
    assert(all.take(found.len() as int) =~= all);
    drop_hints(&mut function.blocks);
    assert(function@ =~= tagged(before, base as nat)) by {
        assert(function@.blocks =~= tagged(before, base as nat).blocks);
    }
    next_group
}

/// Whether the loops of an operation are loops among its blocks.
pub open spec fn op_wf(op: ModuleOpView) -> bool {
    op matches ModuleOpView::Function(function) ==> function.wf()
}

/// Whether the loops of a module are loops among blocks.
pub open spec fn module_wf(module: Seq<Seq<ModuleOpView>>) -> bool {
    forall|b: int, i: int|
        #![trigger module[b][i]]
        0 <= b < module.len() && 0 <= i < module[b].len() ==> op_wf(module[b][i])
}

/// The number of groups that an operation needs.
pub open spec fn op_groups(op: ModuleOpView) -> nat {
    match op {
        ModuleOpView::Function(function) => groups_needed(function),
        ModuleOpView::Other { .. } => 0,
    }
}

/// The number of groups that operations need.
pub open spec fn ops_groups(ops: Seq<ModuleOpView>) -> nat
    decreases ops.len(),
{
    if ops.len() == 0 {
        0
    } else {
        ops_groups(ops.drop_last()) + op_groups(ops.last())
    }
}

/// The number of groups that the blocks of a module need.
pub open spec fn module_groups(module: Seq<Seq<ModuleOpView>>) -> nat
    decreases module.len(),
{
    if module.len() == 0 {
        0
    } else {
        module_groups(module.drop_last()) + ops_groups(module.last())
    }
}

/// An operation once its hints have been followed and taken out.
pub open spec fn tagged_op(op: ModuleOpView, base: nat) -> ModuleOpView {
    match op {
        ModuleOpView::Function(function) => ModuleOpView::Function(tagged(function, base)),
        ModuleOpView::Other { .. } => op,
    }
}

/// Operations once their hints have been followed and taken out. Groups are
/// counted on from one operation to the next.
pub open spec fn tagged_ops(ops: Seq<ModuleOpView>, base: nat) -> Seq<ModuleOpView> {
    Seq::new(ops.len(), |i: int| tagged_op(ops[i], base + ops_groups(ops.take(i))))
}

/// A module once its hints have been followed and taken out. Groups are counted
/// on from one block to the next.
pub open spec fn tagged_module(module: Seq<Seq<ModuleOpView>>) -> Seq<Seq<ModuleOpView>> {
    Seq::new(module.len(), |b: int| tagged_ops(module[b], module_groups(module.take(b))))
}

/// What is said about the hints of an operation.
pub open spec fn said_of_op(op: ModuleOpView, base: nat, verbose: bool) -> Seq<Seq<char>> {
    match op {
        ModuleOpView::Function(function) => said(
            hints(function.blocks),
            function.info,
            base,
            verbose,
        ),
        ModuleOpView::Other { .. } => seq![],
    }
}

/// The group that the operation at a place of a module starts from.
pub open spec fn base_at(module: Seq<Seq<ModuleOpView>>, b: int, i: int) -> nat {
    module_groups(module.take(b)) + ops_groups(module[b].take(i))
}

/// The places of the functions among operations of one block, in order.
pub open spec fn places_in(ops: Seq<ModuleOpView>, block: usize) -> Seq<(usize, usize)>
    decreases ops.len(),
{
    if ops.len() == 0 {
        seq![]
    } else {
        let before = places_in(ops.drop_last(), block);
        if ops.last() is Function {
            before.push((block, (ops.len() - 1) as usize))
        } else {
            before
        }
    }
}

/// The places of the functions of a module, in order: block by block.
pub open spec fn function_places(module: Seq<Seq<ModuleOpView>>) -> Seq<(usize, usize)>
    decreases module.len(),
{
    if module.len() == 0 {
        seq![]
    } else {
        function_places(module.drop_last()) + places_in(
            module.last(),
            (module.len() - 1) as usize,
        )
    }
}

/// The operation at a place.
pub open spec fn op_at(module: Seq<Seq<ModuleOpView>>, place: (usize, usize)) -> ModuleOpView {
    module[place.0 as int][place.1 as int]
}

/// What is said about the hints of the functions at some places.
pub open spec fn said_at(
    module: Seq<Seq<ModuleOpView>>,
    places: Seq<(usize, usize)>,
    verbose: bool,
) -> Seq<Seq<char>>
    decreases places.len(),
{
    if places.len() == 0 {
        seq![]
    } else {
        let last = places.last();
        said_at(module, places.drop_last(), verbose) + said_of_op(
            op_at(module, last),
            base_at(module, last.0 as int, last.1 as int),
            verbose,
        )
    }
}

/// What is said about the hints of a module.
pub open spec fn said_of_module(module: Seq<Seq<ModuleOpView>>, verbose: bool) -> Seq<Seq<char>> {
    said_at(module, function_places(module), verbose)
}

/// The operations up to a place need no more groups than all of them.
proof fn ops_groups_grow(ops: Seq<ModuleOpView>, i: int)
    requires
        0 <= i <= ops.len(),
    ensures
        ops_groups(ops.take(i)) <= ops_groups(ops),
    decreases ops.len() - i,
{
    if i == ops.len() {
        assert(ops.take(i) =~= ops);
    } else {
        ops_groups_grow(ops, i + 1);
        assert(ops.take(i + 1).drop_last() =~= ops.take(i));
    }
}

/// The blocks up to a place need no more groups than all of them.
proof fn module_groups_grow(module: Seq<Seq<ModuleOpView>>, b: int)
    requires
        0 <= b <= module.len(),
    ensures
        module_groups(module.take(b)) <= module_groups(module),
    decreases module.len() - b,
{
    if b == module.len() {
        assert(module.take(b) =~= module);
    } else {
        module_groups_grow(module, b + 1);
        assert(module.take(b + 1).drop_last() =~= module.take(b));
    }
}

/// The groups that the functions at some places need.
spec fn groups_at(module: Seq<Seq<ModuleOpView>>, places: Seq<(usize, usize)>) -> nat
    decreases places.len(),
{
    if places.len() == 0 {
        0
    } else {
        groups_at(module, places.drop_last()) + op_groups(op_at(module, places.last()))
    }
}

/// Whether a module and its blocks have no more operations than can be counted.
pub open spec fn is_addressable(module: Seq<Seq<ModuleOpView>>) -> bool {
    &&& module.len() <= usize::MAX
    &&& forall|b: int| 0 <= b < module.len() ==> (#[trigger] module[b]).len() <= usize::MAX
}

proof fn groups_at_add(
    module: Seq<Seq<ModuleOpView>>,
    p: Seq<(usize, usize)>,
    q: Seq<(usize, usize)>,
)
    ensures
        groups_at(module, p + q) == groups_at(module, p) + groups_at(module, q),
    decreases q.len(),
{
    if q.len() == 0 {
        assert(p + q =~= p);
    } else {
        groups_at_add(module, p, q.drop_last());
        assert((p + q).drop_last() =~= p + q.drop_last());
        assert((p + q).last() == q.last());
    }
}

/// Whether a function stands at a place.
pub open spec fn is_function_place(
    module: Seq<Seq<ModuleOpView>>,
    place: (usize, usize),
) -> bool {
    &&& place.0 < module.len()
    &&& place.1 < module[place.0 as int].len()
    &&& op_at(module, place) is Function
}

/// The places in one block are functions of that block, in order.
proof fn places_in_block_are_functions(module: Seq<Seq<ModuleOpView>>, block: usize, m: int)
    requires
        is_addressable(module),
        block < module.len(),
        0 <= m <= module[block as int].len(),
    ensures
        forall|k: int|
            #![trigger places_in(module[block as int].take(m), block)[k]]
            0 <= k < places_in(module[block as int].take(m), block).len() ==> ({
                let place = places_in(module[block as int].take(m), block)[k];
                is_function_place(module, place) && place.0 == block && place.1 < m
            }),
        places_in(module[block as int].take(m), block).no_duplicates(),
    decreases m,
{
    let ops = module[block as int];
    let places = places_in(ops.take(m), block);
    if m > 0 {
        let before = places_in(ops.take(m - 1), block);
        places_in_block_are_functions(module, block, m - 1);
        assert(ops.take(m).drop_last() =~= ops.take(m - 1));
        assert(ops.take(m).last() == ops[m - 1]);
        assert forall|k: int| #![trigger places[k]] 0 <= k < places.len() implies ({
            let place = places[k];
            is_function_place(module, place) && place.0 == block && place.1 < m
        }) by {
            if k < before.len() {
                assert(places[k] == before[k]);
            }
        }
        assert forall|k: int, l: int| 0 <= k < l < places.len() implies places[k] != places[l] by {
            assert(places[k] == before[k]);
            if l < before.len() {
                assert(places[l] == before[l]);
            }
        }
    }
}

/// Every function of one block is at one of the places.
proof fn places_in_block_are_all(
    module: Seq<Seq<ModuleOpView>>,
    block: usize,
    m: int,
    i: int,
)
    requires
        is_addressable(module),
        block < module.len(),
        0 <= i < m <= module[block as int].len(),
        module[block as int][i] is Function,
    ensures
        places_in(module[block as int].take(m), block).contains((block, i as usize)),
    decreases m,
{
    let ops = module[block as int];
    let places = places_in(ops.take(m), block);
    let before = places_in(ops.take(m - 1), block);
    assert(ops.take(m).drop_last() =~= ops.take(m - 1));
    assert(ops.take(m).last() == ops[m - 1]);
    if i < m - 1 {
        places_in_block_are_all(module, block, m - 1, i);
        let k = choose|k: int| 0 <= k < before.len() && before[k] == (block, i as usize);
        assert(places[k] == (block, i as usize));
    } else {
        assert(places[before.len() as int] == (block, i as usize));
    }
}

/// The functions before one of a block need the groups of the operations
/// before it.
proof fn places_in_block_count_groups(
    module: Seq<Seq<ModuleOpView>>,
    block: usize,
    m: int,
    k: int,
)
    requires
        is_addressable(module),
        block < module.len(),
        0 <= m <= module[block as int].len(),
        0 <= k <= places_in(module[block as int].take(m), block).len(),
    ensures
        groups_at(module, places_in(module[block as int].take(m), block).take(k)) == ops_groups(
            module[block as int].take(
                if k < places_in(module[block as int].take(m), block).len() {
                    places_in(module[block as int].take(m), block)[k].1 as int
                } else {
                    m
                },
            ),
        ),
    decreases m,
{
    let ops = module[block as int];
    let places = places_in(ops.take(m), block);
    if m > 0 {
        let before = places_in(ops.take(m - 1), block);
        assert(ops.take(m).drop_last() =~= ops.take(m - 1));
        assert(ops.take(m).last() == ops[m - 1]);
        if k < before.len() {
            places_in_block_count_groups(module, block, m - 1, k);
            assert(places[k] == before[k]);
            assert(places.take(k) =~= before.take(k));
        } else {
            places_in_block_count_groups(module, block, m - 1, before.len() as int);
            assert(before.take(before.len() as int) =~= before);
            if k == before.len() {
                assert(places.take(k) =~= before);
            } else {
                assert(places.take(k) =~= places);
                assert(places.drop_last() =~= before);
                assert(places.last() == (block, (m - 1) as usize));
            }
        }
    }
}

/// The places in a module are functions, in order.
proof fn places_are_functions(module: Seq<Seq<ModuleOpView>>, m: int)
    requires
        is_addressable(module),
        0 <= m <= module.len(),
    ensures
        forall|k: int|
            #![trigger function_places(module.take(m))[k]]
            0 <= k < function_places(module.take(m)).len() ==> is_function_place(
                module,
                function_places(module.take(m))[k],
            ) && function_places(module.take(m))[k].0 < m,
        function_places(module.take(m)).no_duplicates(),
    decreases m,
{
    let places = function_places(module.take(m));
    if m > 0 {
        let before = function_places(module.take(m - 1));
        let block = (m - 1) as usize;
        let ops = module[m - 1];
        let here = places_in(ops, block);
        places_are_functions(module, m - 1);
        places_in_block_are_functions(module, block, ops.len() as int);
        assert(ops.take(ops.len() as int) =~= ops);
        assert(module.take(m).drop_last() =~= module.take(m - 1));
        assert(places == before + here);
        assert forall|k: int| #![trigger places[k]] 0 <= k < places.len() implies is_function_place(
            module,
            places[k],
        ) && places[k].0 < m by {
            if k < before.len() {
                assert(places[k] == before[k]);
            } else {
                assert(places[k] == here[k - before.len()]);
            }
        }
        assert forall|k: int, l: int| 0 <= k < l < places.len() implies places[k] != places[l] by {
            if l < before.len() {
                assert(places[k] == before[k] && places[l] == before[l]);
            } else {
                assert(places[l] == here[l - before.len()]);
                if k < before.len() {
                    assert(places[k] == before[k]);
                } else {
                    assert(places[k] == here[k - before.len()]);
                }
            }
        }
    }
}

/// Every function of a module is at one of the places.
proof fn places_are_all(module: Seq<Seq<ModuleOpView>>, m: int, b: int, i: int)
    requires
        is_addressable(module),
        0 <= b < m <= module.len(),
        0 <= i < module[b].len(),
        module[b][i] is Function,
    ensures
        function_places(module.take(m)).contains((b as usize, i as usize)),
    decreases m,
{
    let places = function_places(module.take(m));
    let before = function_places(module.take(m - 1));
    let ops = module[m - 1];
    let here = places_in(ops, (m - 1) as usize);
    let place = (b as usize, i as usize);
    assert(ops.take(ops.len() as int) =~= ops);
    assert(module.take(m).drop_last() =~= module.take(m - 1));
    assert(places == before + here);
    if b < m - 1 {
        places_are_all(module, m - 1, b, i);
        let k = choose|k: int| 0 <= k < before.len() && before[k] == place;
        assert(places[k] == place);
    } else {
        places_in_block_are_all(module, (m - 1) as usize, ops.len() as int, i);
        let k = choose|k: int| 0 <= k < here.len() && here[k] == place;
        assert(places[before.len() + k] == place);
    }
}

/// The functions before one of a module need the groups that come before its
/// own.
proof fn places_count_groups(module: Seq<Seq<ModuleOpView>>, m: int, k: int)
    requires
        is_addressable(module),
        0 <= m <= module.len(),
        0 <= k <= function_places(module.take(m)).len(),
    ensures
        groups_at(module, function_places(module.take(m)).take(k)) == (if k < function_places(
            module.take(m),
        ).len() {
            base_at(
                module,
                function_places(module.take(m))[k].0 as int,
                function_places(module.take(m))[k].1 as int,
            )
        } else {
            module_groups(module.take(m))
        }),
    decreases m,
{
    let places = function_places(module.take(m));
    if m > 0 {
        let before = function_places(module.take(m - 1));
        let block = (m - 1) as usize;
        let ops = module[m - 1];
        let here = places_in(ops, block);
        assert(ops.take(ops.len() as int) =~= ops);
        assert(module.take(m).drop_last() =~= module.take(m - 1));
        assert(module.take(m).last() == ops);
        assert(places == before + here);
        if k < before.len() {
            places_count_groups(module, m - 1, k);
            assert(places[k] == before[k]);
            assert(places.take(k) =~= before.take(k));
        } else {
            let q = k - before.len();
            places_count_groups(module, m - 1, before.len() as int);
            assert(before.take(before.len() as int) =~= before);
            places_in_block_count_groups(module, block, ops.len() as int, q);
            places_in_block_are_functions(module, block, ops.len() as int);
            assert(places.take(k) =~= before + here.take(q));
            groups_at_add(module, before, here.take(q));
            if q < here.len() {
                assert(places[k] == here[q]);
            }
        }
    }
}

/// Adds the places of the functions in one block to a list.
fn collect_block_functions(ops: &Vec<ModuleOp>, block: usize, out: &mut Vec<(usize, usize)>)
    ensures
        final(out)@ == old(out)@ + places_in(op_views(ops@), block),
{
    let ghost before = out@;
    let ghost views = op_views(ops@);
    assert(views.take(0) =~= seq![]);
    assert(out@ =~= before + places_in(views.take(0), block));
    for i in 0..ops.len()
        invariant
            views == op_views(ops@),
            out@ == before + places_in(views.take(i as int), block),
    {
        assert(views.take(i + 1).drop_last() =~= views.take(i as int));
        assert(views.take(i + 1).last() == ops@[i as int]@);
        if let ModuleOp::Function(_) = &ops[i] {
            out.push((block, i));
        }
        assert(out@ =~= before + places_in(views.take(i + 1), block));
    }
    assert(views.take(ops.len() as int) =~= views);
}

/// The places of the functions of a module, each by its block and its place
/// there.
pub fn collect_functions(module: &Module) -> (r: Vec<(usize, usize)>)
    ensures
        r@ == function_places(module@),
{
    let mut out: Vec<(usize, usize)> = Vec::new();
    let ghost views = module@;
    assert(views.take(0) =~= seq![]);
    for b in 0..module.blocks.len()
        invariant
            views == module@,
            out@ == function_places(views.take(b as int)),
    {
        assert(views.take(b + 1).drop_last() =~= views.take(b as int));
        assert(views.take(b + 1).last() == op_views(module.blocks@[b as int]@));
        collect_block_functions(&module.blocks[b], b, &mut out);
    }
    assert(views.take(module.blocks.len() as int) =~= views);
    out
}

/// A module that is held in memory is addressable.
proof fn modules_are_addressable(module: Module)
    ensures
        is_addressable(module@),
{
    let count: usize = module.blocks.len();
    assert(module@.len() == count);
    assert forall|b: int| 0 <= b < module@.len() implies (#[trigger] module@[b]).len()
        <= usize::MAX by {
        let length: usize = module.blocks@[b].len();
        assert(module@[b].len() == length);
    }
}

/// Moves every hint of a module onto the latches of its loop.
///
/// Returns the lines to print: a warning about each hint outside of loops, and,
/// if `verbose`, a note about each other one.
pub fn attach_llvm_loop_metadata(module: &mut Module, verbose: bool) -> (lines: Vec<String>)
    requires
        module_wf(old(module)@),
        module_groups(old(module)@) <= u32::MAX,
    ensures
        final(module)@ == tagged_module(old(module)@),
        texts(lines@) == said_of_module(old(module)@, verbose),
{
    let ghost before = module@;
    let mut lines: Vec<String> = Vec::new();
    let places = collect_functions(module);
    let ghost all = function_places(before);
    proof {
        modules_are_addressable(*module);
        assert(before.take(before.len() as int) =~= before);
        places_are_functions(before, before.len() as int);
        places_count_groups(before, before.len() as int, all.len() as int);
        assert(all.take(all.len() as int) =~= all);
        assert forall|q: int| #![trigger all[q]] 0 <= q < all.len() implies is_function_place(
            before,
            all[q],
        ) && groups_at(before, all.take(q)) == base_at(before, all[q].0 as int, all[q].1 as int) by {
            places_count_groups(before, before.len() as int, q);
        }
    }
    let mut next: u32 = 0;
    assert(all.take(0) =~= seq![]);
    assert(texts(lines@) =~= said_at(before, all.take(0), verbose));
    for k in 0..places.len()
        invariant
            places@ == all,
            all == function_places(before),
            is_addressable(before),
            module_wf(before),
            all.no_duplicates(),
            groups_at(before, all) == module_groups(before),
            module_groups(before) <= u32::MAX,
            forall|q: int|
                #![trigger all[q]]
                0 <= q < all.len() ==> is_function_place(before, all[q]) && groups_at(
                    before,
                    all.take(q),
                ) == base_at(before, all[q].0 as int, all[q].1 as int),
            module.blocks@.len() == before.len(),
            forall|b: int|
                #![trigger module.blocks@[b]]
                0 <= b < before.len() ==> module.blocks@[b]@.len() == before[b].len(),
            forall|b: int, i: int|
                #![trigger module.blocks@[b]@[i]]
                0 <= b < before.len() && 0 <= i < before[b].len() ==> module.blocks@[b]@[i]@ == (
                if all.take(k as int).contains((b as usize, i as usize)) {
                    tagged_op(before[b][i], base_at(before, b, i))
                } else {
                    before[b][i]
                }),
            next == groups_at(before, all.take(k as int)),
            texts(lines@) == said_at(before, all.take(k as int), verbose),
    {
        let (b, i) = places[k];
        let ghost shorter = all.take(k as int);
        let ghost longer = all.take(k + 1);
        let ghost current = module.blocks@;
        proof {
            assert(longer.drop_last() =~= shorter);
            assert(longer.last() == (b, i));
            groups_at_grow(before, all, k + 1);
            assert(!shorter.contains((b, i)));
            assert(module.blocks@[b as int]@[i as int]@ == before[b as int][i as int]);
            assert(op_wf(before[b as int][i as int]));
        }
        match &mut module.blocks[b][i] {
            ModuleOp::Function(function) => {
                next = tag_function(function, next, verbose, &mut lines);
            },
            ModuleOp::Other { .. } => {},
        }
        proof {
            assert forall|c: int, j: int|
                #![trigger module.blocks@[c]@[j]]
                0 <= c < before.len() && 0 <= j < before[c].len() implies module.blocks@[c]@[j]@
                == (if longer.contains((c as usize, j as usize)) {
                tagged_op(before[c][j], base_at(before, c, j))
            } else {
                before[c][j]
            }) by {
                let place = (c as usize, j as usize);
                assert(longer =~= shorter.push((b, i)));
                if shorter.contains(place) {
                    let q = choose|q: int| 0 <= q < shorter.len() && shorter[q] == place;
                    assert(longer[q] == place);
                }
                if c == b && j == i {
                    assert(longer[k as int] == place);
                } else {
                    assert(module.blocks@[c]@[j] == current[c]@[j]);
                    if longer.contains(place) {
                        let q = choose|q: int| 0 <= q < longer.len() && longer[q] == place;
                        assert(shorter[q] == place);
                    }
                }
            }
        }
        assert(texts(lines@) =~= said_at(before, longer, verbose));
    }
    assert(all.take(places.len() as int) =~= all);
    assert(module@ =~= tagged_module(before)) by {
        assert forall|b: int| 0 <= b < before.len() implies #[trigger] module@[b] == tagged_module(
            before,
        )[b] by {
            assert forall|i: int| 0 <= i < before[b].len() implies #[trigger] module@[b][i]
                == tagged_module(before)[b][i] by {
                assert(module@[b][i] == module.blocks@[b]@[i]@);
                if before[b][i] is Function {
                    places_are_all(before, before.len() as int, b, i);
                } else if all.contains((b as usize, i as usize)) {
                    let q = choose|q: int| 0 <= q < all.len() && all[q] == (b as usize, i as usize);
                    assert(is_function_place(before, all[q]));
                }
            }
            assert(module@[b] =~= tagged_module(before)[b]);
        }
    }
    lines
}

/// The functions up to a place need no more groups than all of them.
proof fn groups_at_grow(module: Seq<Seq<ModuleOpView>>, places: Seq<(usize, usize)>, k: int)
    requires
        0 <= k <= places.len(),
    ensures
        groups_at(module, places.take(k)) <= groups_at(module, places),
    decreases places.len() - k,
{
    if k == places.len() {
        assert(places.take(k) =~= places);
    } else {
        groups_at_grow(module, places, k + 1);
        assert(places.take(k + 1).drop_last() =~= places.take(k));
    }
}

} // verus!
