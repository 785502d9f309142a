//! The rules of `tcgen05.ld.red`: tensor-memory loads that also return a
//! minimum or maximum over the loaded registers.
//!
//! Two names of the wider `tcgen05` family are arguments here: the token that
//! the imported declarations use for the overloaded integer vector of a
//! register count, and the execution scope of the operation.

use crate::catalog::tcgen05::{
    multiplicity_spellings_are_distinct, shape_spellings_are_distinct, tcgen05_ld_multiplicity_name, tcgen05_ld_shape_name, Tcgen05LdMultiplicity, Tcgen05LdRed,
    Tcgen05LdRedElement, Tcgen05LdRedOp, Tcgen05LdShape,
};
use crate::catalog::OperandPattern;
use crate::text::{
    decimal, decimal_text, push_text, push_text_if, split_is_unique, text_if, texts,
};
use vstd::prelude::*;

verus! {

/// The targets that assemble the instruction.
pub const TCGEN05_LD_RED_TARGETS: &'static str = "sm_103a|sm_110a";

/// The first PTX version with the instruction.
pub const TCGEN05_LD_RED_MINIMUM_PTX: &'static str = "8.8";

/// The shapes of reducing loads, in canonical order.
pub const TCGEN05_LD_RED_SHAPES: [Tcgen05LdShape; 2] = [
    Tcgen05LdShape::M32x32b,
    Tcgen05LdShape::M16x32bx2,
];

/// The repetitions of reducing loads, in canonical order. There is no `.x1`
/// form.
pub const TCGEN05_LD_RED_MULTIPLICITIES: [Tcgen05LdMultiplicity; 7] = [
    Tcgen05LdMultiplicity::X2,
    Tcgen05LdMultiplicity::X4,
    Tcgen05LdMultiplicity::X8,
    Tcgen05LdMultiplicity::X16,
    Tcgen05LdMultiplicity::X32,
    Tcgen05LdMultiplicity::X64,
    Tcgen05LdMultiplicity::X128,
];

/// The elements of reducing loads, in canonical order.
const TCGEN05_LD_RED_ELEMENTS: [Tcgen05LdRedElement; 3] = [
    Tcgen05LdRedElement::U32,
    Tcgen05LdRedElement::S32,
    Tcgen05LdRedElement::F32,
];

/// The reductions, in canonical order.
const TCGEN05_LD_RED_OPS: [Tcgen05LdRedOp; 2] = [Tcgen05LdRedOp::Min, Tcgen05LdRedOp::Max];

/// The `.abs` and `.NaN` modifiers, in canonical order.
const TCGEN05_LD_RED_FLAGS: [(bool, bool); 4] = [
    (false, false),
    (false, true),
    (true, false),
    (true, true),
];

/// Whether an identity is one of a reducing load: a reducible shape, more than
/// one repetition, and modifiers on `f32` only.
pub open spec fn is_supported(ld_red: Tcgen05LdRed) -> bool {
    &&& ld_red.shape == Tcgen05LdShape::M32x32b || ld_red.shape == Tcgen05LdShape::M16x32bx2
    &&& ld_red.multiplicity != Tcgen05LdMultiplicity::X1
    &&& ld_red.element != Tcgen05LdRedElement::F32 ==> !ld_red.abs && !ld_red.nan
}

/// The place of a shape in the canonical order.
pub open spec fn shape_rank(shape: Tcgen05LdShape) -> int {
    if shape == Tcgen05LdShape::M32x32b {
        0
    } else {
        1
    }
}

/// The place of a repetition in the canonical order.
pub open spec fn multiplicity_rank(multiplicity: Tcgen05LdMultiplicity) -> int {
    match multiplicity {
        Tcgen05LdMultiplicity::X1 => -1,
        Tcgen05LdMultiplicity::X2 => 0,
        Tcgen05LdMultiplicity::X4 => 1,
        Tcgen05LdMultiplicity::X8 => 2,
        Tcgen05LdMultiplicity::X16 => 3,
        Tcgen05LdMultiplicity::X32 => 4,
        Tcgen05LdMultiplicity::X64 => 5,
        Tcgen05LdMultiplicity::X128 => 6,
    }
}

/// The place of an operation among the twelve of one shape and repetition.
pub open spec fn operation_rank(ld_red: Tcgen05LdRed) -> int {
    let op = if ld_red.op == Tcgen05LdRedOp::Min {
        0int
    } else {
        1int
    };
    match ld_red.element {
        Tcgen05LdRedElement::U32 => op,
        Tcgen05LdRedElement::S32 => 2 + op,
        Tcgen05LdRedElement::F32 => 4 + 4 * op + (if ld_red.abs {
            2int
        } else {
            0int
        }) + (if ld_red.nan {
            1int
        } else {
            0int
        }),
    }
}

/// The place of a supported identity in the canonical order: by shape,
/// repetition, element, reduction, `.abs`, `.NaN`.
pub open spec fn rank(ld_red: Tcgen05LdRed) -> int {
    84 * shape_rank(ld_red.shape) + 12 * multiplicity_rank(ld_red.multiplicity) + operation_rank(
        ld_red,
    )
}

/// Whether a list holds supported identities, each at the place of its rank.
pub open spec fn in_rank_order(variants: Seq<Tcgen05LdRed>) -> bool {
    forall|i: int|
        #![trigger variants[i]]
        0 <= i < variants.len() ==> is_supported(variants[i]) && rank(variants[i]) == i
}

/// Supported identities of the same rank are the same.
proof fn rank_is_injective(a: Tcgen05LdRed, b: Tcgen05LdRed)
    requires
        is_supported(a),
        is_supported(b),
        rank(a) == rank(b),
    ensures
        a == b,
{
    assert(0 <= operation_rank(a) < 12 && 0 <= operation_rank(b) < 12);
    assert(0 <= multiplicity_rank(a.multiplicity) < 7 && 0 <= multiplicity_rank(b.multiplicity) < 7);
    assert(shape_rank(a.shape) == shape_rank(b.shape));
    assert(multiplicity_rank(a.multiplicity) == multiplicity_rank(b.multiplicity));
    assert(operation_rank(a) == operation_rank(b));
}

/// A complete list in rank order holds every supported identity once, and
/// nothing else.
pub proof fn variants_are_the_supported(variants: Seq<Tcgen05LdRed>)
    requires
        in_rank_order(variants),
        variants.len() == 168,
    ensures
        variants.no_duplicates(),
        forall|ld_red: Tcgen05LdRed| #[trigger]
            variants.contains(ld_red) <==> is_supported(ld_red),
{
    assert forall|ld_red: Tcgen05LdRed| is_supported(ld_red) implies #[trigger] variants.contains(
        ld_red,
    ) by {
        assert(0 <= operation_rank(ld_red) < 12);
        assert(0 <= multiplicity_rank(ld_red.multiplicity) < 7);
        rank_is_injective(variants[rank(ld_red)], ld_red);
    }
}

/// Every supported identity in canonical order.
pub fn tcgen05_ld_red_variants() -> (r: Vec<Tcgen05LdRed>)
    ensures
        r@.len() == 168,
        in_rank_order(r@),
        r@.no_duplicates(),
        forall|ld_red: Tcgen05LdRed| #[trigger] r@.contains(ld_red) <==> is_supported(ld_red),
{
    let mut variants: Vec<Tcgen05LdRed> = Vec::new();
    for s in 0..2usize
        invariant
            variants@.len() == 84 * s,
            in_rank_order(variants@),
    {
        let shape = TCGEN05_LD_RED_SHAPES[s];
        assert(is_reducible_at(shape, s as int));
        for m in 0..7usize
            invariant
                s < 2,
                is_reducible_at(shape, s as int),
                variants@.len() == 84 * s + 12 * m,
                in_rank_order(variants@),
        {
            let multiplicity = TCGEN05_LD_RED_MULTIPLICITIES[m];
            assert(multiplicity_rank(multiplicity) == m);
            for e in 0..3usize
                invariant
                    s < 2,
                    is_reducible_at(shape, s as int),
                    m < 7,
                    multiplicity_rank(multiplicity) == m,
                    variants@.len() == 84 * s + 12 * m + 2 * e + (if e == 3 {
                        6int
                    } else {
                        0int
                    }),
                    in_rank_order(variants@),
            {
                let element = TCGEN05_LD_RED_ELEMENTS[e];
                let flags: usize = if element == Tcgen05LdRedElement::F32 {
                    4
                } else {
                    1
                };
                for o in 0..2usize
                    invariant
                        s < 2,
                        is_reducible_at(shape, s as int),
                        m < 7,
                        multiplicity_rank(multiplicity) == m,
                        e < 3,
                        element == TCGEN05_LD_RED_ELEMENTS[e as int],
                        flags == (if e == 2 {
                            4int
                        } else {
                            1int
                        }),
                        variants@.len() == 84 * s + 12 * m + 2 * e + flags * o,
                        in_rank_order(variants@),
                {
                    let op = TCGEN05_LD_RED_OPS[o];
                    for f in 0..flags
                        invariant
                            s < 2,
                            is_reducible_at(shape, s as int),
                            m < 7,
                            multiplicity_rank(multiplicity) == m,
                            e < 3,
                            element == TCGEN05_LD_RED_ELEMENTS[e as int],
                            o < 2,
                            op == TCGEN05_LD_RED_OPS[o as int],
                            flags == (if e == 2 {
                                4int
                            } else {
                                1int
                            }),
                            variants@.len() == 84 * s + 12 * m + 2 * e + flags * o + f,
                            in_rank_order(variants@),
                    {
                        let (abs, nan) = TCGEN05_LD_RED_FLAGS[f];
                        let ld_red = Tcgen05LdRed { shape, multiplicity, op, element, abs, nan };
                        assert(rank(ld_red) == variants@.len() && is_supported(ld_red));
                        variants.push(ld_red);
                    }
                }
            }
        }
    }
    proof {
        variants_are_the_supported(variants@);
    }
    variants
}

/// Whether a shape is the reducible one at a place of the canonical order.
spec fn is_reducible_at(shape: Tcgen05LdShape, place: int) -> bool {
    shape == (if place == 0 {
        Tcgen05LdShape::M32x32b
    } else {
        Tcgen05LdShape::M16x32bx2
    })
}

/// The registers that a reducing load fills.
pub open spec fn registers(ld_red: Tcgen05LdRed) -> nat {
    (ld_red.shape.register_multiplier() * ld_red.multiplicity.count()) as nat
}

/// Whether a load takes the offset of the second half of a split shape.
pub open spec fn is_half_split(ld_red: Tcgen05LdRed) -> bool {
    ld_red.shape == Tcgen05LdShape::M16x32bx2
}

/// The modifiers of a load, each behind a separator.
pub open spec fn flag_suffix(ld_red: Tcgen05LdRed, separator: Seq<char>) -> Seq<char> {
    (if ld_red.abs {
        separator + "abs"@
    } else {
        ""@
    }) + (if ld_red.nan {
        separator + "nan"@
    } else {
        ""@
    })
}

/// The identifier of a reducing load.
pub open spec fn ld_red_id(ld_red: Tcgen05LdRed) -> Seq<char> {
    "tcgen05_ld_red_"@ + ld_red.shape.spelling() + "_"@ + ld_red.multiplicity.spelling() + "_"@
        + ld_red.op.spelling() + flag_suffix(ld_red, "_"@) + "_"@ + ld_red.element.ptx_spelling()
}

/// The operation key of a reducing load.
pub open spec fn ld_red_operation_key(ld_red: Tcgen05LdRed) -> Seq<char> {
    "tcgen05.ld.red."@ + ld_red.shape.spelling() + "."@ + ld_red.multiplicity.spelling() + "."@
        + ld_red.op.spelling() + flag_suffix(ld_red, "."@) + "."@ + ld_red.element.ptx_spelling()
}

/// The name of the imported record behind a reducing load.
pub open spec fn ld_red_source_record(ld_red: Tcgen05LdRed) -> Seq<char> {
    "int_nvvm_tcgen05_ld_red_"@ + ld_red.shape.spelling() + "_"@ + ld_red.multiplicity.spelling()
        + "_"@ + ld_red.element.signless_spelling()
}

/// The LLVM symbol behind a reducing load.
pub open spec fn ld_red_llvm_symbol(ld_red: Tcgen05LdRed) -> Seq<char> {
    "llvm.nvvm.tcgen05.ld.red."@ + ld_red.shape.spelling() + "."@ + ld_red.multiplicity.spelling()
        + "."@ + ld_red.element.signless_spelling()
}

/// The Rust type that a reducing load returns.
pub open spec fn ld_red_rust_result(ld_red: Tcgen05LdRed) -> Seq<char> {
    "(["@ + ld_red.element.rust_spelling() + "; "@ + decimal(registers(ld_red)) + "], "@
        + ld_red.element.rust_spelling() + ")"@
}

/// The number of the imported record of an `f32` vector, if there is one.
pub open spec fn f32_vector_record(count: nat) -> Option<nat> {
    if count == 2 {
        Some(10022)
    } else if count == 4 {
        Some(10031)
    } else if count == 8 {
        Some(10038)
    } else if count == 16 {
        Some(10045)
    } else if count == 32 {
        Some(10052)
    } else if count == 64 {
        Some(10059)
    } else if count == 128 {
        Some(10066)
    } else {
        None
    }
}

/// Whether the imported declarations name the results of a load: `f32` vectors
/// have one record per register count.
pub open spec fn has_result_records(ld_red: Tcgen05LdRed) -> bool {
    ld_red.element == Tcgen05LdRedElement::F32 ==> f32_vector_record(registers(ld_red)) is Some
}

/// Supported loads fill one register per repetition, and the imported
/// declarations name their results.
pub proof fn supported_loads_have_records(ld_red: Tcgen05LdRed)
    requires
        is_supported(ld_red),
    ensures
        registers(ld_red) == ld_red.multiplicity.count(),
        has_result_records(ld_red),
{
    let multiplier = ld_red.shape.register_multiplier();
    let count = ld_red.multiplicity.count();
    assert(multiplier * count == count) by (nonlinear_arith)
        requires
            multiplier == 1,
    ;
}

/// The results of the imported declaration: the vector, then the reduction.
pub open spec fn ld_red_llvm_results(
    ld_red: Tcgen05LdRed,
    overloaded_data_token: Seq<char>,
) -> Seq<Seq<char>> {
    if ld_red.element == Tcgen05LdRedElement::F32 {
        seq![
            "anonymous_"@ + decimal(f32_vector_record(registers(ld_red))->0),
            "anonymous_10023"@,
        ]
    } else {
        seq![overloaded_data_token, "anonymous_10027"@]
    }
}

/// The arguments of the imported declaration.
pub open spec fn ld_red_llvm_arguments(ld_red: Tcgen05LdRed) -> Seq<Seq<char>> {
    seq!["tmem_ptr"@] + text_if(is_half_split(ld_red), "i64"@) + seq!["i32"@] + (
    if ld_red.element == Tcgen05LdRedElement::F32 {
        seq!["i1"@, "i1"@]
    } else {
        seq![]
    })
}

/// The property that an argument is an immediate.
pub open spec fn immediate_property(index: int) -> Seq<char> {
    "ImmArg<arg"@ + decimal(index as nat) + ">"@
}

/// The properties of the imported declaration: every argument but the first is
/// an immediate.
pub open spec fn ld_red_properties(ld_red: Tcgen05LdRed) -> Seq<Seq<char>> {
    Seq::new(
        (ld_red_llvm_arguments(ld_red).len() - 1) as nat,
        |i: int| immediate_property(i + 1),
    ) + seq!["IntrArgMemOnly"@, "IntrConvergent"@, "NoCapture<arg0>"@]
}

/// The dialect operation type of a reducing load.
pub open spec fn ld_red_op_type(ld_red: Tcgen05LdRed) -> Seq<char> {
    "Tcgen05LdRed"@ + ld_red.shape.spelling() + "X"@ + ld_red.multiplicity.digits() + (
    match ld_red.op {
        Tcgen05LdRedOp::Min => "Min"@,
        Tcgen05LdRedOp::Max => "Max"@,
    }) + (if ld_red.abs {
        "Abs"@
    } else {
        ""@
    }) + (if ld_red.nan {
        "Nan"@
    } else {
        ""@
    }) + (match ld_red.element {
        Tcgen05LdRedElement::U32 => "U32"@,
        Tcgen05LdRedElement::S32 => "S32"@,
        Tcgen05LdRedElement::F32 => "F32"@,
    }) + "Op"@
}

/// The modifiers of the PTX instruction.
pub open spec fn ld_red_modifiers(ld_red: Tcgen05LdRed) -> Seq<Seq<char>> {
    seq![
        "ld"@,
        "red"@,
        "sync"@,
        "aligned"@,
        ld_red.shape.spelling(),
        ld_red.multiplicity.spelling(),
        ld_red.op.spelling(),
    ] + text_if(ld_red.abs, "abs"@) + text_if(ld_red.nan, "NaN"@) + seq![
        ld_red.element.ptx_spelling(),
    ]
}

/// The operands of the PTX instruction.
pub open spec fn ld_red_operands(ld_red: Tcgen05LdRed) -> Seq<OperandPattern> {
    seq![
        OperandPattern::RegisterList { length: registers(ld_red) as usize },
        OperandPattern::Register,
        OperandPattern::Address,
    ] + (if is_half_split(ld_red) {
        seq![OperandPattern::Immediate]
    } else {
        seq![]
    })
}

/// The sentence that documents a reducing load.
pub open spec fn ld_red_summary(ld_red: Tcgen05LdRed) -> Seq<char> {
    "Loads "@ + decimal(registers(ld_red)) + " "@ + (match ld_red.element {
        Tcgen05LdRedElement::U32 => "unsigned 32-bit"@,
        Tcgen05LdRedElement::S32 => "signed 32-bit"@,
        Tcgen05LdRedElement::F32 => "f32"@,
    }) + " values from tensor memory and reduces them to their "@ + (match ld_red.op {
        Tcgen05LdRedOp::Min => "minimum"@,
        Tcgen05LdRedOp::Max => "maximum"@,
    }) + " "@ + (if ld_red.element == Tcgen05LdRedElement::F32 && ld_red.abs {
        "absolute value"@
    } else {
        "value"@
    }) + (if ld_red.nan {
        ", propagating NaN inputs"@
    } else {
        ""@
    }) + "."@
}

/// The registers that a reducing load fills.
pub fn tcgen05_ld_red_register_count(ld_red: Tcgen05LdRed) -> (r: usize)
    ensures
        r == registers(ld_red),
        0 < r <= 512,
{
    let multiplier: usize = ld_red.shape.register_multiplier();
    let count: usize = ld_red.multiplicity.count();
    assert(0 < multiplier * count <= 512) by (nonlinear_arith)
        requires
            0 < multiplier <= 4,
            0 < count <= 128,
    ;
    multiplier * count
}

/// The modifiers of a load, each behind a separator.
pub fn tcgen05_ld_red_flag_suffix(ld_red: Tcgen05LdRed, separator: &str) -> (r: String)
    ensures
        r@ == flag_suffix(ld_red, separator@),
{
    let abs = if ld_red.abs {
        separator.to_owned().concat("abs")
    } else {
        "".to_owned()
    };
    let nan = if ld_red.nan {
        separator.to_owned().concat("nan")
    } else {
        "".to_owned()
    };
    abs.concat(nan.as_str())
}

/// The identifier of a reducing load.
pub fn tcgen05_ld_red_id(ld_red: Tcgen05LdRed) -> (r: String)
    ensures
        r@ == ld_red_id(ld_red),
{
    "tcgen05_ld_red_".to_owned().concat(tcgen05_ld_shape_name(ld_red.shape)).concat("_").concat(
        tcgen05_ld_multiplicity_name(ld_red.multiplicity).as_str(),
    ).concat("_").concat(ld_red.op.name()).concat(
        tcgen05_ld_red_flag_suffix(ld_red, "_").as_str(),
    ).concat("_").concat(ld_red.element.ptx_name())
}

/// The operation key of a reducing load.
pub fn tcgen05_ld_red_operation_key(ld_red: Tcgen05LdRed) -> (r: String)
    ensures
        r@ == ld_red_operation_key(ld_red),
{
    "tcgen05.ld.red.".to_owned().concat(tcgen05_ld_shape_name(ld_red.shape)).concat(".").concat(
        tcgen05_ld_multiplicity_name(ld_red.multiplicity).as_str(),
    ).concat(".").concat(ld_red.op.name()).concat(
        tcgen05_ld_red_flag_suffix(ld_red, ".").as_str(),
    ).concat(".").concat(ld_red.element.ptx_name())
}

/// The name of the imported record behind a reducing load.
pub fn tcgen05_ld_red_source_record(ld_red: Tcgen05LdRed) -> (r: String)
    ensures
        r@ == ld_red_source_record(ld_red),
{
    "int_nvvm_tcgen05_ld_red_".to_owned().concat(tcgen05_ld_shape_name(ld_red.shape)).concat(
        "_",
    ).concat(tcgen05_ld_multiplicity_name(ld_red.multiplicity).as_str()).concat("_").concat(
        ld_red.element.llvm_suffix(),
    )
}

/// The LLVM symbol behind a reducing load.
pub fn tcgen05_ld_red_llvm_symbol(ld_red: Tcgen05LdRed) -> (r: String)
    ensures
        r@ == ld_red_llvm_symbol(ld_red),
{
    "llvm.nvvm.tcgen05.ld.red.".to_owned().concat(tcgen05_ld_shape_name(ld_red.shape)).concat(
        ".",
    ).concat(tcgen05_ld_multiplicity_name(ld_red.multiplicity).as_str()).concat(".").concat(
        ld_red.element.llvm_suffix(),
    )
}

/// The Rust type that a reducing load returns.
pub fn tcgen05_ld_red_rust_result(ld_red: Tcgen05LdRed) -> (r: String)
    ensures
        r@ == ld_red_rust_result(ld_red),
{
    let element = ld_red.element.rust_type();
    let count = decimal_text(tcgen05_ld_red_register_count(ld_red) as u64);
    "([".to_owned().concat(element).concat("; ").concat(count.as_str()).concat("], ").concat(
        element,
    ).concat(")")
}

/// The results of the imported declaration: the vector, then the reduction.
/// `overloaded_data_token` names the integer vector of the load's register
/// count.
pub fn tcgen05_ld_red_llvm_results(
    ld_red: Tcgen05LdRed,
    overloaded_data_token: &str,
) -> (r: Vec<String>)
    requires
        has_result_records(ld_red),
    ensures
        texts(r@) == ld_red_llvm_results(ld_red, overloaded_data_token@),
{
    let count = tcgen05_ld_red_register_count(ld_red);
    let mut results: Vec<String> = Vec::new();
    match ld_red.element {
        Tcgen05LdRedElement::U32 | Tcgen05LdRedElement::S32 => {
            push_text(&mut results, overloaded_data_token);
            push_text(&mut results, "anonymous_10027");
        },
        Tcgen05LdRedElement::F32 => {
            let vector: u64 = match count {
                2 => 10022,
                4 => 10031,
                8 => 10038,
                16 => 10045,
                32 => 10052,
                64 => 10059,
                _ => 10066,
            };
            push_text(
                &mut results,
                "anonymous_".to_owned().concat(decimal_text(vector).as_str()).as_str(),
            );
            push_text(&mut results, "anonymous_10023");
        },
    }
    assert(texts(results@) =~= ld_red_llvm_results(ld_red, overloaded_data_token@));
    results
}

/// Whether a load takes the offset of the second half of a split shape.
pub fn tcgen05_ld_red_has_half_split_offset(ld_red: Tcgen05LdRed) -> (r: bool)
    ensures
        r == is_half_split(ld_red),
{
    ld_red.shape == Tcgen05LdShape::M16x32bx2
}

/// The arguments of the imported declaration.
pub fn tcgen05_ld_red_llvm_arguments(ld_red: Tcgen05LdRed) -> (r: Vec<String>)
    ensures
        texts(r@) == ld_red_llvm_arguments(ld_red),
{
    let mut arguments: Vec<String> = Vec::new();
    push_text(&mut arguments, "tmem_ptr");
    push_text_if(&mut arguments, tcgen05_ld_red_has_half_split_offset(ld_red), "i64");
    push_text(&mut arguments, "i32");
    if ld_red.element == Tcgen05LdRedElement::F32 {
        push_text(&mut arguments, "i1");
        push_text(&mut arguments, "i1");
    }
    assert(texts(arguments@) =~= ld_red_llvm_arguments(ld_red));
    arguments
}

/// The properties of the imported declaration: every argument but the first is
/// an immediate.
pub fn tcgen05_ld_red_imported_properties(ld_red: Tcgen05LdRed) -> (r: Vec<String>)
    ensures
        texts(r@) == ld_red_properties(ld_red),
{
    let arguments = tcgen05_ld_red_llvm_arguments(ld_red);
    assert(texts(arguments@).len() == arguments@.len());
    let mut properties: Vec<String> = Vec::new();
    let ghost immediates = Seq::new(
        (arguments@.len() - 1) as nat,
        |i: int| immediate_property(i + 1),
    );
    assert(texts(properties@) =~= immediates.take(0));
    for index in 1..arguments.len()
        invariant
            0 < arguments@.len(),
            immediates == Seq::new(
                (arguments@.len() - 1) as nat,
                |i: int| immediate_property(i + 1),
            ),
            texts(properties@) == immediates.take(index - 1),
    {
        let number = decimal_text(index as u64);
        push_text(
            &mut properties,
            "ImmArg<arg".to_owned().concat(number.as_str()).concat(">").as_str(),
        );
        assert(texts(properties@) =~= immediates.take(index as int));
    }
    push_text(&mut properties, "IntrArgMemOnly");
    push_text(&mut properties, "IntrConvergent");
    push_text(&mut properties, "NoCapture<arg0>");
    assert(texts(properties@) =~= ld_red_properties(ld_red));
    properties
}

/// The dialect operation type of a reducing load.
pub fn tcgen05_ld_red_op_type(ld_red: Tcgen05LdRed) -> (r: String)
    ensures
        r@ == ld_red_op_type(ld_red),
{
    let op = match ld_red.op {
        Tcgen05LdRedOp::Min => "Min",
        Tcgen05LdRedOp::Max => "Max",
    };
    let element = match ld_red.element {
        Tcgen05LdRedElement::U32 => "U32",
        Tcgen05LdRedElement::S32 => "S32",
        Tcgen05LdRedElement::F32 => "F32",
    };
    "Tcgen05LdRed".to_owned().concat(tcgen05_ld_shape_name(ld_red.shape)).concat("X").concat(
        ld_red.multiplicity.count_digits(),
    ).concat(op).concat(
        if ld_red.abs {
            "Abs"
        } else {
            ""
        },
    ).concat(
        if ld_red.nan {
            "Nan"
        } else {
            ""
        },
    ).concat(element).concat("Op")
}

/// The modifiers of the PTX instruction.
pub fn tcgen05_ld_red_modifiers(ld_red: Tcgen05LdRed) -> (r: Vec<String>)
    ensures
        texts(r@) == ld_red_modifiers(ld_red),
{
    let mut modifiers: Vec<String> = Vec::new();
    push_text(&mut modifiers, "ld");
    push_text(&mut modifiers, "red");
    push_text(&mut modifiers, "sync");
    push_text(&mut modifiers, "aligned");
    push_text(&mut modifiers, tcgen05_ld_shape_name(ld_red.shape));
    push_text(&mut modifiers, tcgen05_ld_multiplicity_name(ld_red.multiplicity).as_str());
    push_text(&mut modifiers, ld_red.op.name());
    push_text_if(&mut modifiers, ld_red.abs, "abs");
    push_text_if(&mut modifiers, ld_red.nan, "NaN");
    push_text(&mut modifiers, ld_red.element.ptx_name());
    assert(texts(modifiers@) =~= ld_red_modifiers(ld_red));
    modifiers
}

/// The operands of the PTX instruction.
pub fn tcgen05_ld_red_operands(ld_red: Tcgen05LdRed) -> (r: Vec<OperandPattern>)
    ensures
        r@ == ld_red_operands(ld_red),
{
    let mut operands: Vec<OperandPattern> = vec![
        OperandPattern::RegisterList { length: tcgen05_ld_red_register_count(ld_red) },
        OperandPattern::Register,
        OperandPattern::Address,
    ];
    if tcgen05_ld_red_has_half_split_offset(ld_red) {
        operands.push(OperandPattern::Immediate);
    }
    assert(operands@ =~= ld_red_operands(ld_red));
    operands
}

/// The sentence that documents a reducing load.
pub fn tcgen05_ld_red_summary(ld_red: Tcgen05LdRed) -> (r: String)
    ensures
        r@ == ld_red_summary(ld_red),
{
    let count = decimal_text(tcgen05_ld_red_register_count(ld_red) as u64);
    let extreme = match ld_red.op {
        Tcgen05LdRedOp::Min => "minimum",
        Tcgen05LdRedOp::Max => "maximum",
    };
    let element = match ld_red.element {
        Tcgen05LdRedElement::U32 => "unsigned 32-bit",
        Tcgen05LdRedElement::S32 => "signed 32-bit",
        Tcgen05LdRedElement::F32 => "f32",
    };
    let reduced = if ld_red.element == Tcgen05LdRedElement::F32 && ld_red.abs {
        "absolute value"
    } else {
        "value"
    };
    let nan = if ld_red.nan {
        ", propagating NaN inputs"
    } else {
        ""
    };
    "Loads ".to_owned().concat(count.as_str()).concat(" ").concat(element).concat(
        " values from tensor memory and reduces them to their ",
    ).concat(extreme).concat(" ").concat(reduced).concat(nan).concat(".")
}

/// The end of a name: the reduction, its modifiers and the element, with a
/// separator between them.
spec fn separated_operation(ld_red: Tcgen05LdRed, separator: char) -> Seq<char> {
    ld_red.op.spelling() + flag_suffix(ld_red, seq![separator]) + seq![separator]
        + ld_red.element.ptx_spelling()
}

/// A name: the shape, the repetition and the operation, with a separator
/// between them.
spec fn separated_name(ld_red: Tcgen05LdRed, separator: char) -> Seq<char> {
    ld_red.shape.spelling() + seq![separator] + (ld_red.multiplicity.spelling() + seq![separator]
        + separated_operation(ld_red, separator))
}

proof fn separated_operations_are_distinct(a: Tcgen05LdRed, b: Tcgen05LdRed, separator: char)
    requires
        separated_operation(a, separator) == separated_operation(b, separator),
    ensures
        a.op == b.op,
        a.abs == b.abs,
        a.nan == b.nan,
        a.element == b.element,
{
    reveal_strlit("min");
    reveal_strlit("max");
    reveal_strlit("");
    reveal_strlit("abs");
    reveal_strlit("nan");
    reveal_strlit("u32");
    reveal_strlit("s32");
    reveal_strlit("f32");
    let x = separated_operation(a, separator);
    let y = separated_operation(b, separator);
    let n = x.len();
    assert(x[1] == a.op.spelling()[1] && y[1] == b.op.spelling()[1]);
    assert(x[n - 3] == a.element.ptx_spelling()[0] && y[n - 3] == b.element.ptx_spelling()[0]);
    assert(n == 7 + (if a.abs {
        4int
    } else {
        0int
    }) + (if a.nan {
        4int
    } else {
        0int
    }));
    if n == 11 {
        assert(x[4] == (if a.abs {
            'a'
        } else {
            'n'
        }));
        assert(y[4] == (if b.abs {
            'a'
        } else {
            'n'
        }));
    }
}

proof fn separated_names_are_distinct(a: Tcgen05LdRed, b: Tcgen05LdRed, separator: char)
    requires
        separator == '_' || separator == '.',
        separated_name(a, separator) == separated_name(b, separator),
    ensures
        a == b,
{
    shape_spellings_are_distinct(a.shape, b.shape);
    shape_spellings_are_distinct(b.shape, a.shape);
    multiplicity_spellings_are_distinct(a.multiplicity, b.multiplicity);
    multiplicity_spellings_are_distinct(b.multiplicity, a.multiplicity);
    let x = separated_operation(a, separator);
    let y = separated_operation(b, separator);
    split_is_unique(
        a.shape.spelling(),
        b.shape.spelling(),
        separator,
        a.multiplicity.spelling() + seq![separator] + x,
        b.multiplicity.spelling() + seq![separator] + y,
    );
    split_is_unique(a.multiplicity.spelling(), b.multiplicity.spelling(), separator, x, y);
    separated_operations_are_distinct(a, b, separator);
}

/// The end of an operation type: the reduction without its first letter, the
/// modifiers and the element.
spec fn op_type_end(ld_red: Tcgen05LdRed) -> Seq<char> {
    ld_red_op_type(ld_red).skip(
        14int + ld_red.shape.spelling().len() + ld_red.multiplicity.digits().len(),
    )
}

/// Operation types are a prefix, the shape, `X`, the repetition, `M`, and an
/// end that tells the operation.
proof fn op_type_parts(ld_red: Tcgen05LdRed)
    ensures
        ld_red_op_type(ld_red).skip(12) == ld_red.shape.spelling() + seq!['X'] + (
        ld_red.multiplicity.digits() + seq!['M'] + op_type_end(ld_red)),
        op_type_end(ld_red).len() == 7 + (if ld_red.abs {
            3int
        } else {
            0int
        }) + (if ld_red.nan {
            3int
        } else {
            0int
        }),
        op_type_end(ld_red)[0] == (match ld_red.op {
            Tcgen05LdRedOp::Min => 'i',
            Tcgen05LdRedOp::Max => 'a',
        }),
        op_type_end(ld_red).len() == 10 ==> op_type_end(ld_red)[2] == (if ld_red.abs {
            'A'
        } else {
            'N'
        }),
        op_type_end(ld_red)[op_type_end(ld_red).len() - 5] == (match ld_red.element {
            Tcgen05LdRedElement::U32 => 'U',
            Tcgen05LdRedElement::S32 => 'S',
            Tcgen05LdRedElement::F32 => 'F',
        }),
{
    reveal_strlit("Tcgen05LdRed");
    reveal_strlit("X");
    reveal_strlit("Min");
    reveal_strlit("Max");
    reveal_strlit("");
    reveal_strlit("Abs");
    reveal_strlit("Nan");
    reveal_strlit("U32");
    reveal_strlit("S32");
    reveal_strlit("F32");
    reveal_strlit("Op");
    assert(ld_red_op_type(ld_red).skip(12) =~= ld_red.shape.spelling() + seq!['X'] + (
    ld_red.multiplicity.digits() + seq!['M'] + op_type_end(ld_red)));
}

/// Identifiers and operation keys are a prefix and a separated name.
proof fn name_parts(ld_red: Tcgen05LdRed)
    ensures
        ld_red_id(ld_red).skip("tcgen05_ld_red_"@.len() as int) == separated_name(ld_red, '_'),
        ld_red_operation_key(ld_red).skip("tcgen05.ld.red."@.len() as int) == separated_name(
            ld_red,
            '.',
        ),
{
    reveal_strlit("_");
    reveal_strlit(".");
    assert("_"@ =~= seq!['_']);
    assert("."@ =~= seq!['.']);
    assert(ld_red_id(ld_red).skip("tcgen05_ld_red_"@.len() as int) =~= separated_name(
        ld_red,
        '_',
    ));
    assert(ld_red_operation_key(ld_red).skip("tcgen05.ld.red."@.len() as int) =~= separated_name(
        ld_red,
        '.',
    ));
}

proof fn op_types_are_distinct(a: Tcgen05LdRed, b: Tcgen05LdRed)
    requires
        ld_red_op_type(a) == ld_red_op_type(b),
    ensures
        a == b,
{
    op_type_parts(a);
    op_type_parts(b);
    shape_spellings_are_distinct(a.shape, b.shape);
    shape_spellings_are_distinct(b.shape, a.shape);
    multiplicity_spellings_are_distinct(a.multiplicity, b.multiplicity);
    multiplicity_spellings_are_distinct(b.multiplicity, a.multiplicity);
    split_is_unique(
        a.shape.spelling(),
        b.shape.spelling(),
        'X',
        a.multiplicity.digits() + seq!['M'] + op_type_end(a),
        b.multiplicity.digits() + seq!['M'] + op_type_end(b),
    );
    split_is_unique(
        a.multiplicity.digits(),
        b.multiplicity.digits(),
        'M',
        op_type_end(a),
        op_type_end(b),
    );
}

/// Distinct identities have distinct identifiers, operation keys and dialect
/// operation types.
pub proof fn names_are_distinct(a: Tcgen05LdRed, b: Tcgen05LdRed)
    requires
        a != b,
    ensures
        ld_red_id(a) != ld_red_id(b),
        ld_red_operation_key(a) != ld_red_operation_key(b),
        ld_red_op_type(a) != ld_red_op_type(b),
{
    name_parts(a);
    name_parts(b);
    if ld_red_id(a) == ld_red_id(b) {
        separated_names_are_distinct(a, b, '_');
    }
    if ld_red_operation_key(a) == ld_red_operation_key(b) {
        separated_names_are_distinct(a, b, '.');
    }
    if ld_red_op_type(a) == ld_red_op_type(b) {
        op_types_are_distinct(a, b);
    }
}

} // verus!
