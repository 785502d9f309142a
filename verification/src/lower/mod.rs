//! Lowering plans: what one dialect operation becomes in the LLVM dialect.
//!
//! A plan is computed from the shape of the operation alone. Whoever owns the
//! IR carries it out: it brings the values of the plan into being from left to
//! right, then emits the inline assembly or the call.

pub mod bulk;
pub mod bulk_laws;
pub mod cache_policy;
pub mod control_laws;
pub mod laws;
pub mod ptx;
pub mod symbol;
pub mod tensor_laws;
pub mod tma;

use crate::unroll::LlvmLoopUnrollAttr;
use vstd::prelude::*;

verus! {

/// Which backend consumes the lowered module.
#[derive(Clone, Copy, Debug, PartialEq, Eq, Structural)]
pub enum IntrinsicBackend {
    /// LLVM's own NVPTX backend, which knows the typed NVVM intrinsics.
    LlvmNvptx,
    /// The legacy NVVM IR library, which takes inline PTX instead.
    LibNvvm,
}

/// What a plan reads of the operation that it lowers.
#[derive(Debug)]
pub struct OpShape {
    /// One entry per operand: the address space of its pointer type, if the
    /// operand is a pointer.
    pub operand_spaces: Vec<Option<u32>>,
    /// How many results the operation has.
    pub result_count: usize,
}

/// One value that a plan hands on.
#[derive(Clone, Copy, Debug, PartialEq, Eq, Structural)]
pub enum Arg {
    /// An operand as it is.
    Operand(usize),
    /// An operand brought into the shared address space.
    Shared(usize),
    /// An operand brought into the shared-cluster address space.
    Cluster(usize),
    /// An operand under an address-space cast.
    InSpace { operand: usize, space: u32 },
    /// A one-bit constant.
    I1(bool),
    /// A 16-bit constant.
    I16(i16),
    /// A 32-bit constant.
    I32(i32),
    /// A 64-bit constant.
    I64(i64),
}

/// The type of one parameter of a called intrinsic.
#[derive(Clone, Copy, Debug, PartialEq, Eq, Structural)]
pub enum ValueType {
    /// A pointer into an address space.
    Pointer(u32),
    /// A signless integer of a width.
    Integer(u32),
}

/// One argument of a called intrinsic, with the type of its parameter.
#[derive(Clone, Copy, Debug, PartialEq, Eq, Structural)]
pub struct TypedArg {
    pub ty: ValueType,
    pub value: Arg,
}

/// How the optimizer may treat a piece of inline assembly.
#[derive(Clone, Copy, Debug, PartialEq, Eq, Structural)]
pub enum AsmKind {
    /// Has side effects and must stay convergent.
    Convergent,
    /// Has side effects.
    SideEffect,
    /// A pure function of its inputs.
    Pure,
}

/// The one operation that a plan ends in.
#[derive(Debug)]
pub enum Emission {
    /// Inline assembly. `result` is the width of its integer result, if any.
    InlineAsm {
        kind: AsmKind,
        result: Option<u32>,
        inputs: Vec<Arg>,
        template: String,
        constraints: String,
    },
    /// A call of a typed intrinsic that returns nothing.
    Call { symbol: String, arguments: Vec<TypedArg> },
}

/// The plan for one operation.
#[derive(Debug)]
pub struct Lowering {
    /// The position of the value that comes into being before the others, if
    /// they do not follow their order.
    pub first: Option<usize>,
    pub emission: Emission,
}

/// Why an operation cannot be lowered.
#[derive(Debug, PartialEq, Eq)]
pub struct LoweringError {
    pub message: String,
}

/// [`Emission`] by what it holds.
pub enum EmissionView {
    InlineAsm {
        kind: AsmKind,
        result: Option<u32>,
        inputs: Seq<Arg>,
        template: Seq<char>,
        constraints: Seq<char>,
    },
    Call { symbol: Seq<char>, arguments: Seq<TypedArg> },
}

/// [`Lowering`] by what it holds.
pub struct LoweringView {
    pub first: Option<usize>,
    pub emission: EmissionView,
}

impl View for Emission {
    type V = EmissionView;

    open spec fn view(&self) -> EmissionView {
        match self {
            Emission::InlineAsm { kind, result, inputs, template, constraints } => {
                EmissionView::InlineAsm {
                    kind: *kind,
                    result: *result,
                    inputs: inputs@,
                    template: template@,
                    constraints: constraints@,
                }
            },
            Emission::Call { symbol, arguments } => EmissionView::Call {
                symbol: symbol@,
                arguments: arguments@,
            },
        }
    }
}

impl View for Lowering {
    type V = LoweringView;

    open spec fn view(&self) -> LoweringView {
        LoweringView { first: self.first, emission: self.emission@ }
    }
}

/// What a lowering returns: a plan, or the text of the error.
pub open spec fn outcome(r: Result<Lowering, LoweringError>) -> Result<LoweringView, Seq<char>> {
    match r {
        Ok(plan) => Ok(plan@),
        Err(error) => Err(error.message@),
    }
}

/// 1 if a condition holds, 0 otherwise.
pub open spec fn count_if(condition: bool) -> nat {
    if condition {
        1
    } else {
        0
    }
}

/// The operands from position `from` up to, but not at, position `to`.
pub open spec fn operands_between(from: nat, to: nat) -> Seq<Arg> {
    Seq::new((to - from) as nat, |i: int| Arg::Operand((from + i) as usize))
}

/// The operands from position `from` up to, but not at, position `to`, as
/// integer arguments of a width.
pub open spec fn integer_operands(from: nat, to: nat, width: u32) -> Seq<TypedArg> {
    Seq::new(
        (to - from) as nat,
        |i: int|
            TypedArg {
                ty: ValueType::Integer(width),
                value: Arg::Operand((from + i) as usize),
            },
    )
}

/// A list with one argument if a condition holds, and an empty list otherwise.
pub open spec fn arg_if(condition: bool, ty: ValueType, value: Arg) -> Seq<TypedArg> {
    if condition {
        seq![TypedArg { ty, value }]
    } else {
        Seq::empty()
    }
}

/// An operand in an address space: as it is when it is already there.
///
/// The shared and the shared-cluster space have conversions of their own,
/// which decide for themselves; an operand that is no pointer counts as one in
/// the generic space.
pub open spec fn address_in(spaces: Seq<Option<u32>>, operand: nat, space: u32) -> Arg {
    if space == 3 {
        Arg::Shared(operand as usize)
    } else if space == 7 {
        Arg::Cluster(operand as usize)
    } else if (match spaces[operand as int] {
        Some(current) => current,
        None => 0,
    }) == space {
        Arg::Operand(operand as usize)
    } else {
        Arg::InSpace { operand: operand as usize, space }
    }
}

/// 1 if a condition holds, 0 otherwise.
pub(crate) fn number_if(condition: bool) -> (r: usize)
    ensures
        r == count_if(condition),
{
    if condition {
        1
    } else {
        0
    }
}

/// Adds the operands from position `from` up to, but not at, position `to`.
pub(crate) fn push_operands(list: &mut Vec<Arg>, from: usize, to: usize)
    requires
        from <= to,
    ensures
        final(list)@ == old(list)@ + operands_between(from as nat, to as nat),
{
    let ghost before = list@;
    assert(list@ =~= before + operands_between(from as nat, from as nat));
    for i in from..to
        invariant
            from <= i <= to,
            list@ == before + operands_between(from as nat, i as nat),
    {
        list.push(Arg::Operand(i));
        assert(list@ =~= before + operands_between(from as nat, (i + 1) as nat));
    }
}

/// Adds the operands from position `from` up to, but not at, position `to`, as
/// integer arguments of a width.
pub(crate) fn push_integer_operands(
    list: &mut Vec<TypedArg>,
    from: usize,
    to: usize,
    width: u32,
)
    requires
        from <= to,
    ensures
        final(list)@ == old(list)@ + integer_operands(from as nat, to as nat, width),
{
    let ghost before = list@;
    assert(list@ =~= before + integer_operands(from as nat, from as nat, width));
    for i in from..to
        invariant
            from <= i <= to,
            list@ == before + integer_operands(from as nat, i as nat, width),
    {
        list.push(TypedArg { ty: ValueType::Integer(width), value: Arg::Operand(i) });
        assert(list@ =~= before + integer_operands(from as nat, (i + 1) as nat, width));
    }
}

/// Adds one argument with the type of its parameter.
pub(crate) fn push_arg(list: &mut Vec<TypedArg>, ty: ValueType, value: Arg)
    ensures
        final(list)@ == old(list)@ + seq![(TypedArg { ty, value })],
{
    let ghost before = list@;
    list.push(TypedArg { ty, value });
    assert(list@ =~= before + seq![TypedArg { ty, value }]);
}

/// Adds one argument with the type of its parameter if a condition holds.
pub(crate) fn push_arg_if(
    list: &mut Vec<TypedArg>,
    condition: bool,
    ty: ValueType,
    value: Arg,
)
    ensures
        final(list)@ == old(list)@ + arg_if(condition, ty, value),
{
    if condition {
        push_arg(list, ty, value);
    } else {
        assert(list@ =~= list@ + arg_if(condition, ty, value));
    }
}

/// Brings an operand into `space`, leaving it alone when it is already there.
pub fn cast_to_addrspace(op: &OpShape, operand: usize, space: u32) -> (r: Arg)
    requires
        operand < op.operand_spaces@.len(),
    ensures
        r == address_in(op.operand_spaces@, operand as nat, space),
{
    if space == 3 {
        return Arg::Shared(operand);
    }
    if space == 7 {
        return Arg::Cluster(operand);
    }
    let current: u32 = match op.operand_spaces[operand] {
        Some(current) => current,
        None => 0,
    };
    if current == space {
        return Arg::Operand(operand);
    }
    Arg::InSpace { operand, space }
}

/// The unroll request on a lowered branch, in the terms of the exporter.
#[derive(Clone, Copy, Debug, PartialEq, Eq, Structural)]
pub struct LoopUnrollAttr {
    pub factor: u32,
    pub group: u32,
}

/// The request on a lowered branch: the one of the terminator that it was
/// lowered from, and the one that it has where there is none.
pub fn preserve_loop_metadata(
    source: Option<LlvmLoopUnrollAttr>,
    lowered: Option<LoopUnrollAttr>,
) -> (r: Option<LoopUnrollAttr>)
    ensures
        r == (match source {
            Some(request) => Some(
                LoopUnrollAttr { factor: request.factor, group: request.group },
            ),
            None => lowered,
        }),
{
    match source {
        Some(request) => Some(LoopUnrollAttr { factor: request.factor, group: request.group }),
        None => lowered,
    }
}

} // verus!
