//! What the names and instructions of reducing loads say about the load.

use crate::catalog::tcgen05::{
    Tcgen05LdMultiplicity, Tcgen05LdRed, Tcgen05LdRedElement, Tcgen05LdRedOp, Tcgen05LdShape,
};
use crate::catalog::OperandPattern;
use crate::resolve::ld_red::{
    has_result_records, is_half_split, is_supported, ld_red_id,
    ld_red_llvm_arguments, ld_red_llvm_results, ld_red_llvm_symbol, ld_red_modifiers,
    ld_red_op_type, ld_red_operands, ld_red_operation_key, ld_red_properties, ld_red_rust_result,
    ld_red_source_record, ld_red_summary, rank, registers, TCGEN05_LD_RED_MINIMUM_PTX,
    TCGEN05_LD_RED_TARGETS,
};
use crate::text::{decimal, joined};
use vstd::prelude::*;

verus! {

/// Words of loads: shapes, reductions and elements, and the repetitions, which
/// double from one to the next.
pub proof fn words_are_those_of_ptx(multiplicity: Tcgen05LdMultiplicity)
    ensures
        Tcgen05LdShape::M16x64b.spelling() == "16x64b"@,
        Tcgen05LdShape::M16x128b.spelling() == "16x128b"@,
        Tcgen05LdShape::M16x256b.spelling() == "16x256b"@,
        Tcgen05LdShape::M32x32b.spelling() == "32x32b"@,
        Tcgen05LdShape::M16x32bx2.spelling() == "16x32bx2"@,
        Tcgen05LdRedOp::Min.spelling() == "min"@,
        Tcgen05LdRedOp::Max.spelling() == "max"@,
        Tcgen05LdRedElement::U32.ptx_spelling() == "u32"@,
        Tcgen05LdRedElement::S32.ptx_spelling() == "s32"@,
        Tcgen05LdRedElement::F32.ptx_spelling() == "f32"@,
        Tcgen05LdRedElement::U32.rust_spelling() == "u32"@,
        Tcgen05LdRedElement::S32.rust_spelling() == "i32"@,
        Tcgen05LdRedElement::F32.rust_spelling() == "f32"@,
        Tcgen05LdRedElement::U32.signless_spelling() == "i32"@,
        Tcgen05LdRedElement::S32.signless_spelling() == "i32"@,
        Tcgen05LdRedElement::F32.signless_spelling() == "f32"@,
        Tcgen05LdMultiplicity::X1.count() == 1,
        Tcgen05LdMultiplicity::X2.count() == 2 * Tcgen05LdMultiplicity::X1.count(),
        Tcgen05LdMultiplicity::X4.count() == 2 * Tcgen05LdMultiplicity::X2.count(),
        Tcgen05LdMultiplicity::X8.count() == 2 * Tcgen05LdMultiplicity::X4.count(),
        Tcgen05LdMultiplicity::X16.count() == 2 * Tcgen05LdMultiplicity::X8.count(),
        Tcgen05LdMultiplicity::X32.count() == 2 * Tcgen05LdMultiplicity::X16.count(),
        Tcgen05LdMultiplicity::X64.count() == 2 * Tcgen05LdMultiplicity::X32.count(),
        Tcgen05LdMultiplicity::X128.count() == 2 * Tcgen05LdMultiplicity::X64.count(),
        multiplicity.digits() == decimal(multiplicity.count() as nat),
        multiplicity.spelling() == "x"@ + decimal(multiplicity.count() as nat),
{
    reveal_strlit("1");
    reveal_strlit("2");
    reveal_strlit("4");
    reveal_strlit("8");
    reveal_strlit("16");
    reveal_strlit("32");
    reveal_strlit("64");
    reveal_strlit("128");
    reveal_with_fuel(decimal, 4);
    assert(multiplicity.digits() =~= decimal(multiplicity.count() as nat));
}

/// A load fills one register for each repetition, twice as many in the shape of
/// 128 bits and four times as many in that of 256.
pub proof fn registers_follow_the_shape(ld_red: Tcgen05LdRed)
    ensures
        ld_red.shape == Tcgen05LdShape::M16x64b || ld_red.shape == Tcgen05LdShape::M32x32b
            || ld_red.shape == Tcgen05LdShape::M16x32bx2 ==> registers(ld_red)
            == ld_red.multiplicity.count(),
        ld_red.shape == Tcgen05LdShape::M16x128b ==> registers(ld_red) == 2
            * ld_red.multiplicity.count(),
        ld_red.shape == Tcgen05LdShape::M16x256b ==> registers(ld_red) == 4
            * ld_red.multiplicity.count(),
        is_supported(ld_red) ==> registers(ld_red) == ld_red.multiplicity.count(),
{
    let count = ld_red.multiplicity.count();
    assert(1 * count == count) by (nonlinear_arith);
}

/// The reducing loads are those of two shapes with more than one repetition;
/// only those of floating point take absolute values or propagate NaN.
pub proof fn supported_loads_are_these(ld_red: Tcgen05LdRed)
    ensures
        is_supported(ld_red) <==> {
            &&& ld_red.shape == Tcgen05LdShape::M32x32b || ld_red.shape
                == Tcgen05LdShape::M16x32bx2
            &&& ld_red.multiplicity.count() >= 2
            &&& ld_red.abs || ld_red.nan ==> ld_red.element == Tcgen05LdRedElement::F32
        },
{
}

/// The modifiers of a load say, in order, what it is: `ld.red.sync.aligned`, its
/// shape, its repetition, its reduction, whether it takes absolute values or
/// propagates NaN, and at the end its element.
pub proof fn modifiers_say_each_part(ld_red: Tcgen05LdRed)
    ensures
        ({
            let words = ld_red_modifiers(ld_red);
            &&& words.len() == 8 + (if ld_red.abs {
                1int
            } else {
                0int
            }) + (if ld_red.nan {
                1int
            } else {
                0int
            })
            &&& words[0] == "ld"@
            &&& words[1] == "red"@
            &&& words[2] == "sync"@
            &&& words[3] == "aligned"@
            &&& ld_red.shape == Tcgen05LdShape::M16x64b ==> words[4] == "16x64b"@
            &&& ld_red.shape == Tcgen05LdShape::M16x128b ==> words[4] == "16x128b"@
            &&& ld_red.shape == Tcgen05LdShape::M16x256b ==> words[4] == "16x256b"@
            &&& ld_red.shape == Tcgen05LdShape::M32x32b ==> words[4] == "32x32b"@
            &&& ld_red.shape == Tcgen05LdShape::M16x32bx2 ==> words[4] == "16x32bx2"@
            &&& words[5] == "x"@ + decimal(ld_red.multiplicity.count() as nat)
            &&& ld_red.op == Tcgen05LdRedOp::Min ==> words[6] == "min"@
            &&& ld_red.op == Tcgen05LdRedOp::Max ==> words[6] == "max"@
            &&& ld_red.abs ==> words[7] == "abs"@
            &&& ld_red.nan ==> words[words.len() - 2] == "NaN"@
            &&& ld_red.element == Tcgen05LdRedElement::U32 ==> words.last() == "u32"@
            &&& ld_red.element == Tcgen05LdRedElement::S32 ==> words.last() == "s32"@
            &&& ld_red.element == Tcgen05LdRedElement::F32 ==> words.last() == "f32"@
        }),
{
    words_are_those_of_ptx(ld_red.multiplicity);
}

/// Different loads have different modifiers.
pub proof fn modifiers_tell_loads_apart(a: Tcgen05LdRed, b: Tcgen05LdRed)
    requires
        ld_red_modifiers(a) == ld_red_modifiers(b),
    ensures
        a == b,
{
    modifiers_say_each_part(a);
    modifiers_say_each_part(b);
    let words = ld_red_modifiers(a);
    assert(words[4] == a.shape.spelling() && words[4] == b.shape.spelling());
    crate::catalog::tcgen05::shape_spellings_are_distinct(a.shape, b.shape);
    assert(words[5] == a.multiplicity.spelling() && words[5] == b.multiplicity.spelling());
    crate::catalog::tcgen05::multiplicity_spellings_are_distinct(a.multiplicity, b.multiplicity);
    reveal_strlit("min");
    reveal_strlit("max");
    assert("min"@[1] != "max"@[1]);
    reveal_strlit("u32");
    reveal_strlit("s32");
    reveal_strlit("f32");
    assert("u32"@[0] != "s32"@[0] && "s32"@[0] != "f32"@[0] && "u32"@[0] != "f32"@[0]);
    if a.abs != b.abs {
        reveal_strlit("abs");
        reveal_strlit("NaN");
        assert("abs"@[0] != "NaN"@[0]);
        assert(words[7] == "abs"@);
        assert(words[7] == "NaN"@);
    }
}

/// The words of the name of a load: those of its instruction without the two
/// that all share, and in lower case.
pub open spec fn name_words(ld_red: Tcgen05LdRed) -> Seq<Seq<char>> {
    let words = ld_red_modifiers(ld_red);
    seq!["tcgen05"@, words[0], words[1], words[4], words[5], words[6]] + (if ld_red.abs {
        seq![words[7]]
    } else {
        seq![]
    }) + (if ld_red.nan {
        seq!["nan"@]
    } else {
        seq![]
    }) + seq![words.last()]
}

proof fn joined_grows(words: Seq<Seq<char>>, word: Seq<char>, separator: Seq<char>)
    requires
        words.len() > 0,
    ensures
        joined(words.push(word), separator) == joined(words, separator) + separator + word,
{
    assert(words.push(word).drop_last() =~= words);
}

proof fn six_joined(words: Seq<Seq<char>>, s: Seq<char>)
    requires
        words.len() == 6,
    ensures
        joined(words, s) == words[0] + s + words[1] + s + words[2] + s + words[3] + s + words[4] + s
            + words[5],
{
    let one = seq![words[0]];
    let two = one.push(words[1]);
    let three = two.push(words[2]);
    let four = three.push(words[3]);
    let five = four.push(words[4]);
    joined_grows(one, words[1], s);
    joined_grows(two, words[2], s);
    joined_grows(three, words[3], s);
    joined_grows(four, words[4], s);
    joined_grows(five, words[5], s);
    assert(five.push(words[5]) =~= words);
}

/// The name words of a load joined by a separator, one after the other.
proof fn name_words_joined(ld_red: Tcgen05LdRed, s: Seq<char>)
    ensures
        joined(name_words(ld_red), s) == "tcgen05"@ + s + "ld"@ + s + "red"@ + s
            + ld_red.shape.spelling() + s + ld_red.multiplicity.spelling() + s
            + ld_red.op.spelling() + ((if ld_red.abs {
            s + "abs"@
        } else {
            ""@
        }) + (if ld_red.nan {
            s + "nan"@
        } else {
            ""@
        })) + s + ld_red.element.ptx_spelling(),
{
    reveal_strlit("");
    modifiers_say_each_part(ld_red);
    let words = ld_red_modifiers(ld_red);
    let head = seq!["tcgen05"@, words[0], words[1], words[4], words[5], words[6]];
    six_joined(head, s);
    let flagged = if ld_red.abs {
        head.push("abs"@)
    } else {
        head
    };
    let marked = if ld_red.nan {
        flagged.push("nan"@)
    } else {
        flagged
    };
    joined_grows(head, "abs"@, s);
    joined_grows(flagged, "nan"@, s);
    joined_grows(marked, words.last(), s);
    assert(marked.push(words.last()) =~= name_words(ld_red));
    assert(words[4] == ld_red.shape.spelling());
    assert(words[5] == ld_red.multiplicity.spelling());
    assert(words[6] == ld_red.op.spelling());
    assert(words.last() == ld_red.element.ptx_spelling());
    let front = joined(head, s);
    let abs = if ld_red.abs {
        s + "abs"@
    } else {
        ""@
    };
    let nan = if ld_red.nan {
        s + "nan"@
    } else {
        ""@
    };
    assert(joined(flagged, s) =~= front + abs);
    assert(joined(marked, s) =~= front + abs + nan);
    assert(joined(name_words(ld_red), s) =~= front + (abs + nan) + s + words.last());
}

/// The identifier of a load is its words with underscores between them, the
/// operation key the same words with dots.
pub proof fn names_are_the_words_of_the_instruction(ld_red: Tcgen05LdRed)
    ensures
        ld_red_id(ld_red) == joined(name_words(ld_red), "_"@),
        ld_red_operation_key(ld_red) == joined(name_words(ld_red), "."@),
{
    name_words_joined(ld_red, "_"@);
    name_words_joined(ld_red, "."@);
    reveal_strlit("tcgen05");
    reveal_strlit("ld");
    reveal_strlit("red");
    reveal_strlit("_");
    reveal_strlit(".");
    reveal_strlit("tcgen05_ld_red_");
    reveal_strlit("tcgen05.ld.red.");
    assert("tcgen05_ld_red_"@ =~= "tcgen05"@ + "_"@ + "ld"@ + "_"@ + "red"@ + "_"@);
    assert("tcgen05.ld.red."@ =~= "tcgen05"@ + "."@ + "ld"@ + "."@ + "red"@ + "."@);
}

/// The LLVM names of a load have its shape, its repetition and its element
/// without sign, and nothing of the reduction: one declaration stands for all
/// reductions.
pub proof fn llvm_names_are_shared_by_reductions(a: Tcgen05LdRed, b: Tcgen05LdRed)
    ensures
        ld_red_source_record(a) == joined(
            seq![
                "int_nvvm_tcgen05_ld_red"@,
                ld_red_modifiers(a)[4],
                ld_red_modifiers(a)[5],
                if a.element == Tcgen05LdRedElement::F32 {
                    "f32"@
                } else {
                    "i32"@
                },
            ],
            "_"@,
        ),
        ld_red_llvm_symbol(a) == joined(
            seq![
                "llvm.nvvm.tcgen05.ld.red"@,
                ld_red_modifiers(a)[4],
                ld_red_modifiers(a)[5],
                if a.element == Tcgen05LdRedElement::F32 {
                    "f32"@
                } else {
                    "i32"@
                },
            ],
            "."@,
        ),
        a.shape == b.shape && a.multiplicity == b.multiplicity && (a.element
            == Tcgen05LdRedElement::F32 <==> b.element == Tcgen05LdRedElement::F32)
            ==> ld_red_llvm_symbol(a) == ld_red_llvm_symbol(b) && ld_red_source_record(a)
            == ld_red_source_record(b),
{
    four_joined("int_nvvm_tcgen05_ld_red"@, a, "_"@);
    four_joined("llvm.nvvm.tcgen05.ld.red"@, a, "."@);
    reveal_strlit("_");
    reveal_strlit(".");
    reveal_strlit("int_nvvm_tcgen05_ld_red");
    reveal_strlit("int_nvvm_tcgen05_ld_red_");
    reveal_strlit("llvm.nvvm.tcgen05.ld.red");
    reveal_strlit("llvm.nvvm.tcgen05.ld.red.");
    assert("int_nvvm_tcgen05_ld_red_"@ =~= "int_nvvm_tcgen05_ld_red"@ + "_"@);
    assert("llvm.nvvm.tcgen05.ld.red."@ =~= "llvm.nvvm.tcgen05.ld.red"@ + "."@);
}

proof fn four_joined(prefix: Seq<char>, a: Tcgen05LdRed, s: Seq<char>)
    ensures
        joined(
            seq![
                prefix,
                ld_red_modifiers(a)[4],
                ld_red_modifiers(a)[5],
                if a.element == Tcgen05LdRedElement::F32 {
                    "f32"@
                } else {
                    "i32"@
                },
            ],
            s,
        ) == prefix + s + a.shape.spelling() + s + a.multiplicity.spelling() + s
            + a.element.signless_spelling(),
{
    let end = if a.element == Tcgen05LdRedElement::F32 {
        "f32"@
    } else {
        "i32"@
    };
    let one = seq![prefix];
    let two = one.push(ld_red_modifiers(a)[4]);
    let three = two.push(ld_red_modifiers(a)[5]);
    joined_grows(one, ld_red_modifiers(a)[4], s);
    joined_grows(two, ld_red_modifiers(a)[5], s);
    joined_grows(three, end, s);
    assert(three.push(end) =~= seq![
        prefix,
        ld_red_modifiers(a)[4],
        ld_red_modifiers(a)[5],
        end,
    ]);
}

/// The operation type names the shape, the repetition, the reduction, what is
/// reduced and the element.
pub proof fn operation_types_name_each_part(ld_red: Tcgen05LdRed)
    ensures
        ld_red_op_type(ld_red) == "Tcgen05LdRed"@ + ld_red_modifiers(ld_red)[4] + "X"@ + decimal(
            ld_red.multiplicity.count() as nat,
        ) + (if ld_red.op == Tcgen05LdRedOp::Min {
            "Min"@
        } else {
            "Max"@
        }) + (if ld_red.abs {
            "Abs"@
        } else {
            ""@
        }) + (if ld_red.nan {
            "Nan"@
        } else {
            ""@
        }) + (if ld_red.element == Tcgen05LdRedElement::U32 {
            "U32"@
        } else if ld_red.element == Tcgen05LdRedElement::S32 {
            "S32"@
        } else {
            "F32"@
        }) + "Op"@,
{
    words_are_those_of_ptx(ld_red.multiplicity);
}

/// A load returns an array with a place for each register, and one more value of
/// the same type.
pub proof fn results_are_registers_and_a_value(ld_red: Tcgen05LdRed)
    ensures
        ld_red.element == Tcgen05LdRedElement::U32 ==> ld_red_rust_result(ld_red) == "(["@ + "u32"@
            + "; "@ + decimal(registers(ld_red)) + "], "@ + "u32"@ + ")"@,
        ld_red.element == Tcgen05LdRedElement::S32 ==> ld_red_rust_result(ld_red) == "(["@ + "i32"@
            + "; "@ + decimal(registers(ld_red)) + "], "@ + "i32"@ + ")"@,
        ld_red.element == Tcgen05LdRedElement::F32 ==> ld_red_rust_result(ld_red) == "(["@ + "f32"@
            + "; "@ + decimal(registers(ld_red)) + "], "@ + "f32"@ + ")"@,
{
}

/// The imported declaration returns the vector and the reduction: integer
/// vectors are named by the token, vectors of floats by the record of their
/// length.
pub proof fn declarations_return_a_vector_and_a_value(ld_red: Tcgen05LdRed, token: Seq<char>)
    ensures
        ({
            let results = ld_red_llvm_results(ld_red, token);
            let n = registers(ld_red);
            let float = ld_red.element == Tcgen05LdRedElement::F32;
            &&& results.len() == 2
            &&& !float ==> results[0] == token && results[1] == "anonymous_10027"@
            &&& float ==> results[1] == "anonymous_10023"@
            &&& float && n == 2 ==> results[0] == "anonymous_"@ + decimal(10022)
            &&& float && n == 4 ==> results[0] == "anonymous_"@ + decimal(10031)
            &&& float && n == 8 ==> results[0] == "anonymous_"@ + decimal(10038)
            &&& float && n == 16 ==> results[0] == "anonymous_"@ + decimal(10045)
            &&& float && n == 32 ==> results[0] == "anonymous_"@ + decimal(10052)
            &&& float && n == 64 ==> results[0] == "anonymous_"@ + decimal(10059)
            &&& float && n == 128 ==> results[0] == "anonymous_"@ + decimal(10066)
            &&& has_result_records(ld_red) <==> !float || n == 2 || n == 4 || n == 8 || n == 16 || n
                == 32 || n == 64 || n == 128
        }),
{
}

/// The imported declaration takes the address, the offset of the second half if
/// the shape is split, the reduction, and for floats the two flags; all but the
/// address are immediates.
pub proof fn declarations_take_the_address_and_immediates(ld_red: Tcgen05LdRed)
    ensures
        ({
            let taken = ld_red_llvm_arguments(ld_red);
            let properties = ld_red_properties(ld_red);
            let split = ld_red.shape == Tcgen05LdShape::M16x32bx2;
            let float = ld_red.element == Tcgen05LdRedElement::F32;
            &&& !split && !float ==> taken == seq!["tmem_ptr"@, "i32"@]
            &&& !split && float ==> taken == seq!["tmem_ptr"@, "i32"@, "i1"@, "i1"@]
            &&& split && !float ==> taken == seq!["tmem_ptr"@, "i64"@, "i32"@]
            &&& split && float ==> taken == seq!["tmem_ptr"@, "i64"@, "i32"@, "i1"@, "i1"@]
            &&& properties.len() == taken.len() + 2
            &&& forall|i: int|
                0 <= i < taken.len() - 1 ==> #[trigger] properties[i] == "ImmArg<arg"@ + decimal(
                    (i + 1) as nat,
                ) + ">"@
            &&& properties[taken.len() - 1] == "IntrArgMemOnly"@
            &&& properties[taken.len() as int] == "IntrConvergent"@
            &&& properties[taken.len() + 1int] == "NoCapture<arg0>"@
            &&& is_half_split(ld_red) <==> split
        }),
{
    let taken = ld_red_llvm_arguments(ld_red);
    let split = ld_red.shape == Tcgen05LdShape::M16x32bx2;
    let float = ld_red.element == Tcgen05LdRedElement::F32;
    assert(!split && !float ==> taken =~= seq!["tmem_ptr"@, "i32"@]);
    assert(!split && float ==> taken =~= seq!["tmem_ptr"@, "i32"@, "i1"@, "i1"@]);
    assert(split && !float ==> taken =~= seq!["tmem_ptr"@, "i64"@, "i32"@]);
    assert(split && float ==> taken =~= seq!["tmem_ptr"@, "i64"@, "i32"@, "i1"@, "i1"@]);
}

/// The instruction writes the registers and the reduction, reads an address and,
/// if the shape is split, takes an immediate offset.
pub proof fn instructions_take_these_operands(ld_red: Tcgen05LdRed)
    ensures
        ({
            let operands = ld_red_operands(ld_red);
            &&& operands[0] == (OperandPattern::RegisterList { length: registers(ld_red) as usize })
            &&& operands[1] == OperandPattern::Register
            &&& operands[2] == OperandPattern::Address
            &&& ld_red.shape == Tcgen05LdShape::M16x32bx2 ==> operands.len() == 4 && operands[3]
                == OperandPattern::Immediate
            &&& ld_red.shape != Tcgen05LdShape::M16x32bx2 ==> operands.len() == 3
        }),
{
}

/// The summary of a load that takes plain values of its element.
pub proof fn summaries_say_what_is_reduced(ld_red: Tcgen05LdRed)
    ensures
        ld_red_summary(ld_red) == "Loads "@ + decimal(registers(ld_red)) + " "@ + (
        if ld_red.element == Tcgen05LdRedElement::U32 {
            "unsigned 32-bit"@
        } else if ld_red.element == Tcgen05LdRedElement::S32 {
            "signed 32-bit"@
        } else {
            "f32"@
        }) + " values from tensor memory and reduces them to their "@ + (if ld_red.op
            == Tcgen05LdRedOp::Min {
            "minimum"@
        } else {
            "maximum"@
        }) + " "@ + (if ld_red.element == Tcgen05LdRedElement::F32 && ld_red.abs {
            "absolute value"@
        } else {
            "value"@
        }) + (if ld_red.nan {
            ", propagating NaN inputs"@
        } else {
            ""@
        }) + "."@,
{
}

/// Where the loads exist.
pub proof fn loads_need_these_targets()
    ensures
        TCGEN05_LD_RED_TARGETS@ == "sm_103a|sm_110a"@,
        TCGEN05_LD_RED_MINIMUM_PTX@ == "8.8"@,
{
}

/// The number of an element in the order of the elements.
pub open spec fn element_number(element: Tcgen05LdRedElement) -> int {
    match element {
        Tcgen05LdRedElement::U32 => 0,
        Tcgen05LdRedElement::S32 => 1,
        Tcgen05LdRedElement::F32 => 2,
    }
}

/// Whether one load comes before another: first by shape, then by repetition,
/// element, reduction, absolute value and NaN.
pub open spec fn load_before(a: Tcgen05LdRed, b: Tcgen05LdRed) -> bool {
    if a.shape != b.shape {
        a.shape == Tcgen05LdShape::M32x32b
    } else if a.multiplicity != b.multiplicity {
        a.multiplicity.count() < b.multiplicity.count()
    } else if a.element != b.element {
        element_number(a.element) < element_number(b.element)
    } else if a.op != b.op {
        a.op == Tcgen05LdRedOp::Min
    } else if a.abs != b.abs {
        b.abs
    } else {
        b.nan && !a.nan
    }
}

/// The canonical order of the loads.
pub proof fn ranks_follow_the_parts(a: Tcgen05LdRed, b: Tcgen05LdRed)
    requires
        is_supported(a),
        is_supported(b),
    ensures
        rank(a) < rank(b) <==> load_before(a, b),
        0 <= rank(a) < 168,
{
}

} // verus!
