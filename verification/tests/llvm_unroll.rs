//! Loop-unroll requests on their way from hints to latches.

use cuda_oxide::unroll::{
    attach_llvm_loop_metadata, collect_functions, collect_hints, request_kind, set_latch_request, Block, BlockOp, Exit,
    Function, Hint, LlvmLoopUnrollAttr, LoopInfo, Module, ModuleOp, NaturalLoop, Terminator,
};

fn block(id: u64, exit: Exit) -> Block {
    Block {
        ops: vec![BlockOp::Other { id }],
        terminator: Some(Terminator {
            exit,
            request: None,
        }),
    }
}

fn goto(target: usize) -> Exit {
    Exit::Goto { target }
}

fn branch(on_true: usize, on_false: usize) -> Exit {
    Exit::CondBranch { on_true, on_false }
}

fn function(
    exits: Vec<Exit>,
    latches: Vec<Vec<usize>>,
    innermost: Vec<Option<usize>>,
) -> Function {
    Function {
        blocks: exits
            .into_iter()
            .enumerate()
            .map(|(id, exit)| block(id as u64, exit))
            .collect(),
        info: LoopInfo {
            loops: latches
                .into_iter()
                .map(|latches| NaturalLoop { latches })
                .collect(),
            innermost,
        },
    }
}

const PREHEADER: usize = 0;
const HEADER: usize = 1;
const LATCH: usize = 2;
const EXIT: usize = 3;

/// A preheader, a header, a body that is the latch, and an exit.
fn counted_loop() -> Function {
    function(
        vec![goto(1), branch(2, 3), goto(1), Exit::Other { id: 0 }],
        vec![vec![LATCH]],
        vec![None, Some(0), Some(0), None],
    )
}

const NORMAL_LATCH: usize = 3;
const CONTINUE_LATCH: usize = 4;

/// A loop whose body goes back to the header from two blocks.
fn multi_latch_counted_loop() -> Function {
    function(
        vec![
            goto(1),
            branch(2, 5),
            branch(3, 4),
            goto(1),
            goto(1),
            Exit::Other { id: 0 },
        ],
        vec![vec![NORMAL_LATCH, CONTINUE_LATCH]],
        vec![None, Some(0), Some(0), Some(0), Some(0), None],
    )
}

const OUTER_BODY: usize = 2;
const INNER_BODY: usize = 4;
const OUTER_LATCH: usize = 5;

/// A loop within a loop.
fn nested_counted_loop() -> Function {
    function(
        vec![
            goto(1),
            branch(2, 6),
            goto(3),
            branch(4, 5),
            goto(3),
            goto(1),
            Exit::Other { id: 0 },
        ],
        vec![vec![OUTER_LATCH], vec![INNER_BODY]],
        vec![None, Some(0), Some(0), Some(1), Some(1), Some(0), None],
    )
}

fn module(functions: Vec<Function>) -> Module {
    let mut ops: Vec<ModuleOp> = functions.into_iter().map(ModuleOp::Function).collect();
    ops.insert(0, ModuleOp::Other { id: 7 });
    Module { blocks: vec![ops] }
}

fn at(module: &Module, index: usize) -> &Function {
    match &module.blocks[0][index + 1] {
        ModuleOp::Function(function) => function,
        ModuleOp::Other { id } => panic!("operation {id} is no function"),
    }
}

fn successors(block: &Block) -> Vec<usize> {
    match block.terminator.unwrap().exit {
        Exit::Goto { target } => vec![target],
        Exit::CondBranch { on_true, on_false } => vec![on_true, on_false],
        Exit::Other { .. } => vec![],
    }
}

/// Whether a block can be reached from the entry without passing another one.
fn reaches(function: &Function, to: usize, avoiding: usize) -> bool {
    let mut seen = vec![false; function.blocks.len()];
    let mut stack = vec![PREHEADER];
    while let Some(b) = stack.pop() {
        if b == avoiding || seen[b] {
            continue;
        }
        seen[b] = true;
        stack.extend(successors(&function.blocks[b]));
    }
    seen[to]
}

/// How many natural loops the control flow has.
fn loop_count(function: &Function) -> usize {
    (0..function.blocks.len())
        .filter(|header| {
            (0..function.blocks.len()).any(|b| {
                successors(&function.blocks[b]).contains(header) && !reaches(function, b, *header)
            })
        })
        .count()
}

/// How many hints remain.
fn hint_count(function: &Function) -> usize {
    collect_hints(&function.blocks).len()
}

/// The request recorded on a block's terminator, if any.
fn request_on(function: &Function, block: usize) -> Option<LlvmLoopUnrollAttr> {
    function.blocks[block].terminator.unwrap().request
}

fn plant(function: &mut Function, block: usize, factor: u32) {
    function.blocks[block]
        .ops
        .insert(0, BlockOp::UnrollHint { factor });
}

/// Plants a hint in a block and runs the pass.
fn tag(mut function: Function, block: usize, factor: u32) -> Module {
    plant(&mut function, block, factor);
    let mut module = module(vec![function]);
    attach_llvm_loop_metadata(&mut module, false);
    module
}

/// A full request moves onto the latch and the loop survives untouched.
#[test]
fn full_request_tags_the_latch_and_keeps_the_loop() {
    let lp = counted_loop();
    assert_eq!(loop_count(&lp), 1, "starts with one loop");

    let module = tag(lp, LATCH, 0);

    let lp = at(&module, 0);
    assert_eq!(
        loop_count(lp),
        1,
        "this pass must not unroll: LLVM does that later"
    );
    assert_eq!(hint_count(lp), 0, "the hint is consumed");
    let request = request_on(lp, LATCH).expect("the latch carries the request");
    assert_eq!(request.factor, 0, "factor 0 means a full unroll");
}

/// A partial request records its factor verbatim.
#[test]
fn partial_request_records_its_factor() {
    let module = tag(counted_loop(), LATCH, 4);

    let lp = at(&module, 0);
    let request = request_on(lp, LATCH).expect("the latch carries the request");
    assert_eq!(request.factor, 4);
    assert_eq!(loop_count(lp), 1, "the loop is left alone");
}

/// Every latch of a multi-latch loop must reference one metadata node, so they
/// all get the same group.
#[test]
fn every_latch_of_one_loop_shares_a_group() {
    let module = tag(multi_latch_counted_loop(), NORMAL_LATCH, 0);

    let lp = at(&module, 0);
    let normal = request_on(lp, NORMAL_LATCH).expect("normal latch tagged");
    let continue_latch = request_on(lp, CONTINUE_LATCH).expect("continue latch tagged");
    assert_eq!(
        normal.group, continue_latch.group,
        "both latches close the same loop, so they share one metadata node"
    );
    assert_eq!(normal.factor, continue_latch.factor);
}

/// Only the annotated loop is tagged.
#[test]
fn only_the_annotated_loop_is_tagged() {
    let module = tag(nested_counted_loop(), INNER_BODY, 0);

    let lp = at(&module, 0);
    assert!(
        request_on(lp, INNER_BODY).is_some(),
        "the inner loop's latch carries the request"
    );
    assert!(
        request_on(lp, OUTER_LATCH).is_none(),
        "the outer loop was not annotated and must stay untagged"
    );
    assert_eq!(loop_count(lp), 2, "both loops remain loops");
}

/// Two annotated loops get distinct groups, so they cannot collapse onto one
/// metadata node.
#[test]
fn separate_loops_get_separate_groups() {
    let mut lp = nested_counted_loop();
    plant(&mut lp, INNER_BODY, 0);
    plant(&mut lp, OUTER_BODY, 2);

    let mut module = module(vec![lp]);
    attach_llvm_loop_metadata(&mut module, false);

    let lp = at(&module, 0);
    let inner = request_on(lp, INNER_BODY).expect("inner latch tagged");
    let outer = request_on(lp, OUTER_LATCH).expect("outer latch tagged");
    assert_ne!(inner.group, outer.group, "one metadata node per loop");
    assert_eq!(inner.factor, 0);
    assert_eq!(outer.factor, 2);
}

/// A hint that is not inside any loop is dropped rather than left to reach
/// lowering.
#[test]
fn a_hint_outside_any_loop_is_dropped() {
    let module = tag(counted_loop(), PREHEADER, 0);

    let lp = at(&module, 0);
    assert_eq!(hint_count(lp), 0, "the stray hint is removed");
    assert!(
        request_on(lp, LATCH).is_none(),
        "a hint outside the loop must not tag the loop"
    );
}

/// Without a hint the pass is a no-op.
#[test]
fn no_hint_leaves_every_terminator_untagged() {
    let mut module = module(vec![counted_loop()]);
    let lines = attach_llvm_loop_metadata(&mut module, true);

    let lp = at(&module, 0);
    for block in [PREHEADER, HEADER, LATCH, EXIT] {
        assert!(request_on(lp, block).is_none(), "nothing is tagged");
    }
    assert_eq!(loop_count(lp), 1);
    assert_eq!(*lp, counted_loop());
    assert!(lines.is_empty());
}

#[test]
fn groups_are_counted_on_across_functions_and_blocks() {
    let hinted = || {
        let mut lp = counted_loop();
        plant(&mut lp, LATCH, 3);
        lp
    };
    let mut module = module(vec![hinted(), counted_loop(), hinted()]);
    module.blocks.push(vec![ModuleOp::Function(hinted())]);
    assert_eq!(collect_functions(&module), [(0, 1), (0, 2), (0, 3), (1, 0)]);
    let lines = attach_llvm_loop_metadata(&mut module, true);
    let group = |index| request_on(at(&module, index), LATCH).map(|request| request.group);
    assert_eq!(group(0), Some(0));
    assert_eq!(group(1), None);
    assert_eq!(group(2), Some(1));
    match &module.blocks[1][0] {
        ModuleOp::Function(lp) => assert_eq!(request_on(lp, LATCH).unwrap().group, 2),
        ModuleOp::Other { .. } => panic!("the function has gone"),
    }
    assert_eq!(
        lines,
        [
            "llvm-unroll: loop#0 factor=3 group=0 latches=1",
            "llvm-unroll: loop#0 factor=3 group=1 latches=1",
            "llvm-unroll: loop#0 factor=3 group=2 latches=1",
        ]
    );
}

#[test]
fn several_hints_on_one_loop_share_a_group_and_the_last_factor_stays() {
    let mut lp = nested_counted_loop();
    plant(&mut lp, HEADER, 8);
    plant(&mut lp, INNER_BODY, 0);
    plant(&mut lp, OUTER_LATCH, 2);
    let mut module = module(vec![lp]);
    attach_llvm_loop_metadata(&mut module, false);
    let lp = at(&module, 0);
    assert_eq!(
        request_on(lp, OUTER_LATCH),
        Some(LlvmLoopUnrollAttr {
            factor: 2,
            group: 0
        })
    );
    assert_eq!(
        request_on(lp, INNER_BODY),
        Some(LlvmLoopUnrollAttr {
            factor: 0,
            group: 1
        })
    );
}

#[test]
fn the_pass_says_what_it_does() {
    let mut lp = counted_loop();
    plant(&mut lp, PREHEADER, 0);
    plant(&mut lp, LATCH, 4);
    plant(&mut lp, EXIT, 12);
    let warnings = [
        "warning: #[llvm_unroll] requested but no metadata was attached: the annotation is not inside a recognizable loop",
        "warning: #[llvm_unroll(12)] requested but no metadata was attached: the annotation is not inside a recognizable loop",
    ];
    let copy = || {
        let mut copy = counted_loop();
        plant(&mut copy, PREHEADER, 0);
        plant(&mut copy, LATCH, 4);
        plant(&mut copy, EXIT, 12);
        copy
    };
    assert_eq!(
        attach_llvm_loop_metadata(&mut module(vec![lp]), false),
        warnings
    );
    assert_eq!(
        attach_llvm_loop_metadata(&mut module(vec![copy()]), true),
        [
            warnings[0],
            "llvm-unroll: loop#0 factor=4 group=0 latches=1",
            warnings[1],
        ]
    );
}

#[test]
fn a_second_run_changes_nothing() {
    let mut once = tag(nested_counted_loop(), INNER_BODY, 5);
    let mut twice = tag(nested_counted_loop(), INNER_BODY, 5);
    let lines = attach_llvm_loop_metadata(&mut twice, true);
    assert!(lines.is_empty());
    assert_eq!(once, twice);
    attach_llvm_loop_metadata(&mut once, false);
    assert_eq!(once, twice);
}

#[test]
fn only_branches_take_requests() {
    let request = LlvmLoopUnrollAttr {
        factor: 1,
        group: 9,
    };
    let mut lp = counted_loop();
    set_latch_request(&mut lp.blocks, EXIT, request);
    assert_eq!(lp, counted_loop());
    set_latch_request(&mut lp.blocks, HEADER, request);
    assert_eq!(request_on(&lp, HEADER), Some(request));
    lp.blocks[LATCH].terminator = None;
    set_latch_request(&mut lp.blocks, LATCH, request);
    assert!(lp.blocks[LATCH].terminator.is_none());
}

#[test]
fn hints_are_found_in_order() {
    let mut lp = counted_loop();
    plant(&mut lp, LATCH, 1);
    plant(&mut lp, LATCH, 2);
    plant(&mut lp, HEADER, 3);
    let found = collect_hints(&lp.blocks);
    assert_eq!(
        found,
        [
            Hint {
                block: HEADER,
                factor: 3
            },
            Hint {
                block: LATCH,
                factor: 2
            },
            Hint {
                block: LATCH,
                factor: 1
            },
        ]
    );
    assert_eq!(request_kind(0), "#[llvm_unroll]");
    assert_eq!(request_kind(16), "#[llvm_unroll(16)]");
}
