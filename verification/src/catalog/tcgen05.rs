//! Identities of the `tcgen05` tensor-memory family.

use vstd::prelude::*;

verus! {

/// The lane and column shape of a tensor-memory load.
#[derive(Debug, Clone, Copy, PartialEq, Eq, Structural)]
pub enum Tcgen05LdShape {
    M16x64b,
    M16x128b,
    M16x256b,
    M32x32b,
    M16x32bx2,
}

/// How often a load repeats its shape along the columns.
#[derive(Debug, Clone, Copy, PartialEq, Eq, Structural)]
pub enum Tcgen05LdMultiplicity {
    X1,
    X2,
    X4,
    X8,
    X16,
    X32,
    X64,
    X128,
}

/// The reduction that a reducing load returns beside its registers.
#[derive(Debug, Clone, Copy, PartialEq, Eq, Structural)]
pub enum Tcgen05LdRedOp {
    Min,
    Max,
}

/// The element type of a reducing load.
#[derive(Debug, Clone, Copy, PartialEq, Eq, Structural)]
pub enum Tcgen05LdRedElement {
    U32,
    S32,
    F32,
}

/// The identity of one `tcgen05.ld.red` variant.
#[derive(Debug, Clone, Copy, PartialEq, Eq, Structural)]
pub struct Tcgen05LdRed {
    pub shape: Tcgen05LdShape,
    pub multiplicity: Tcgen05LdMultiplicity,
    pub op: Tcgen05LdRedOp,
    pub element: Tcgen05LdRedElement,
    /// Reduce absolute values.
    pub abs: bool,
    /// Propagate NaN inputs.
    pub nan: bool,
}

/// The operations of the family.
#[derive(Debug, Clone, Copy, PartialEq, Eq, Structural)]
pub enum Tcgen05Operation {
    Cp,
    Ld,
    LdRed,
    St,
    Mma,
}

/// How the lowered form is adapted to the public one.
#[derive(Debug, Clone, Copy, PartialEq, Eq, Structural)]
pub enum Tcgen05Adapter {
    /// A tensor-memory address in; registers and their reduction out.
    TmemInjectReductionToRegistersAndValue,
    /// The same, with the offset of the second half of a split shape.
    TmemHalfSplitOffsetInjectReductionToRegistersAndValue,
    /// An adapter of another operation.
    Other,
}

/// What the source of an intrinsic promises of its selection.
#[derive(Debug, Clone, Copy, PartialEq, Eq, Structural)]
pub enum Tcgen05SourceContract {
    /// LLVM lowers the intrinsic by custom code and selects no instruction.
    LlvmCustomLoweringWithoutSelection,
    /// LLVM selects an instruction for the intrinsic.
    LlvmSelection,
}

/// Whether a variant has been executed on a GPU.
#[derive(Debug, Clone, Copy, PartialEq, Eq, Structural)]
pub enum RuntimeValidation {
    Unexecuted,
    Executed,
}

/// The contract of one tensor-memory intrinsic. The fields `cp`, `ld`, `st`
/// and `mma` name the variant of the operation that they stand for.
#[derive(Debug)]
pub struct Tcgen05 {
    pub operation: Tcgen05Operation,
    pub cp: Option<String>,
    pub ld: Option<String>,
    pub ld_red: Option<Tcgen05LdRed>,
    pub st: Option<String>,
    pub mma: Option<String>,
    pub adapter: Tcgen05Adapter,
    pub source_contract: Tcgen05SourceContract,
    pub runtime_validation: RuntimeValidation,
}

/// What admits the reducing loads as a group.
#[derive(Debug)]
pub struct Tcgen05Admission {
    pub ld_red_llvm_evidence_profile: Option<String>,
    pub ld_red_libnvvm_evidence_profile: Option<String>,
    pub runtime_validation: RuntimeValidation,
}

/// What admits one reducing load.
#[derive(Debug)]
pub struct Tcgen05LdRedAdmissionVariant {
    pub abi_id: String,
    pub shape: Tcgen05LdShape,
    pub multiplicity: Tcgen05LdMultiplicity,
    pub op: Tcgen05LdRedOp,
    pub element: Tcgen05LdRedElement,
    pub abs: bool,
    pub nan: bool,
}

impl Tcgen05LdShape {
    /// The shape as instructions spell it.
    pub open spec fn spelling(self) -> Seq<char> {
        match self {
            Tcgen05LdShape::M16x64b => "16x64b"@,
            Tcgen05LdShape::M16x128b => "16x128b"@,
            Tcgen05LdShape::M16x256b => "16x256b"@,
            Tcgen05LdShape::M32x32b => "32x32b"@,
            Tcgen05LdShape::M16x32bx2 => "16x32bx2"@,
        }
    }

    /// The registers per lane that one repetition of the shape fills.
    #[verifier::allow_in_spec]
    pub fn register_multiplier(self) -> usize
        returns
            match self {
                Tcgen05LdShape::M16x128b => 2usize,
                Tcgen05LdShape::M16x256b => 4usize,
                _ => 1usize,
            },
    {
        match self {
            Tcgen05LdShape::M16x128b => 2,
            Tcgen05LdShape::M16x256b => 4,
            _ => 1,
        }
    }
}

/// The shape as instructions spell it.
pub fn tcgen05_ld_shape_name(shape: Tcgen05LdShape) -> (r: &'static str)
    ensures
        r@ == shape.spelling(),
{
    match shape {
        Tcgen05LdShape::M16x64b => "16x64b",
        Tcgen05LdShape::M16x128b => "16x128b",
        Tcgen05LdShape::M16x256b => "16x256b",
        Tcgen05LdShape::M32x32b => "32x32b",
        Tcgen05LdShape::M16x32bx2 => "16x32bx2",
    }
}

impl Tcgen05LdMultiplicity {
    /// The repetition count in decimal.
    pub open spec fn digits(self) -> Seq<char> {
        match self {
            Tcgen05LdMultiplicity::X1 => "1"@,
            Tcgen05LdMultiplicity::X2 => "2"@,
            Tcgen05LdMultiplicity::X4 => "4"@,
            Tcgen05LdMultiplicity::X8 => "8"@,
            Tcgen05LdMultiplicity::X16 => "16"@,
            Tcgen05LdMultiplicity::X32 => "32"@,
            Tcgen05LdMultiplicity::X64 => "64"@,
            Tcgen05LdMultiplicity::X128 => "128"@,
        }
    }

    /// The repetition as instructions spell it.
    pub open spec fn spelling(self) -> Seq<char> {
        "x"@ + self.digits()
    }

    /// The repetition count.
    #[verifier::allow_in_spec]
    pub fn count(self) -> usize
        returns
            match self {
                Tcgen05LdMultiplicity::X1 => 1usize,
                Tcgen05LdMultiplicity::X2 => 2usize,
                Tcgen05LdMultiplicity::X4 => 4usize,
                Tcgen05LdMultiplicity::X8 => 8usize,
                Tcgen05LdMultiplicity::X16 => 16usize,
                Tcgen05LdMultiplicity::X32 => 32usize,
                Tcgen05LdMultiplicity::X64 => 64usize,
                Tcgen05LdMultiplicity::X128 => 128usize,
            },
    {
        match self {
            Tcgen05LdMultiplicity::X1 => 1,
            Tcgen05LdMultiplicity::X2 => 2,
            Tcgen05LdMultiplicity::X4 => 4,
            Tcgen05LdMultiplicity::X8 => 8,
            Tcgen05LdMultiplicity::X16 => 16,
            Tcgen05LdMultiplicity::X32 => 32,
            Tcgen05LdMultiplicity::X64 => 64,
            Tcgen05LdMultiplicity::X128 => 128,
        }
    }

    /// The repetition count in decimal.
    pub fn count_digits(self) -> (r: &'static str)
        ensures
            r@ == self.digits(),
    {
        match self {
            Tcgen05LdMultiplicity::X1 => "1",
            Tcgen05LdMultiplicity::X2 => "2",
            Tcgen05LdMultiplicity::X4 => "4",
            Tcgen05LdMultiplicity::X8 => "8",
            Tcgen05LdMultiplicity::X16 => "16",
            Tcgen05LdMultiplicity::X32 => "32",
            Tcgen05LdMultiplicity::X64 => "64",
            Tcgen05LdMultiplicity::X128 => "128",
        }
    }
}

/// The repetition as instructions spell it.
pub fn tcgen05_ld_multiplicity_name(multiplicity: Tcgen05LdMultiplicity) -> (r: String)
    ensures
        r@ == multiplicity.spelling(),
{
    "x".to_owned().concat(multiplicity.count_digits())
}

impl Tcgen05LdRedOp {
    /// The reduction as instructions spell it.
    pub open spec fn spelling(self) -> Seq<char> {
        match self {
            Tcgen05LdRedOp::Min => "min"@,
            Tcgen05LdRedOp::Max => "max"@,
        }
    }

    /// The reduction as instructions spell it.
    pub fn name(self) -> (r: &'static str)
        ensures
            r@ == self.spelling(),
    {
        match self {
            Tcgen05LdRedOp::Min => "min",
            Tcgen05LdRedOp::Max => "max",
        }
    }
}

impl Tcgen05LdRedElement {
    /// The element type in PTX.
    pub open spec fn ptx_spelling(self) -> Seq<char> {
        match self {
            Tcgen05LdRedElement::U32 => "u32"@,
            Tcgen05LdRedElement::S32 => "s32"@,
            Tcgen05LdRedElement::F32 => "f32"@,
        }
    }

    /// The element type in Rust.
    pub open spec fn rust_spelling(self) -> Seq<char> {
        match self {
            Tcgen05LdRedElement::U32 => "u32"@,
            Tcgen05LdRedElement::S32 => "i32"@,
            Tcgen05LdRedElement::F32 => "f32"@,
        }
    }

    /// The element type in LLVM and in the dialect, where integers have no
    /// sign.
    pub open spec fn signless_spelling(self) -> Seq<char> {
        match self {
            Tcgen05LdRedElement::U32 | Tcgen05LdRedElement::S32 => "i32"@,
            Tcgen05LdRedElement::F32 => "f32"@,
        }
    }

    /// The element type in PTX.
    pub fn ptx_name(self) -> (r: &'static str)
        ensures
            r@ == self.ptx_spelling(),
    {
        match self {
            Tcgen05LdRedElement::U32 => "u32",
            Tcgen05LdRedElement::S32 => "s32",
            Tcgen05LdRedElement::F32 => "f32",
        }
    }

    /// The element type in Rust.
    pub fn rust_type(self) -> (r: &'static str)
        ensures
            r@ == self.rust_spelling(),
    {
        match self {
            Tcgen05LdRedElement::U32 => "u32",
            Tcgen05LdRedElement::S32 => "i32",
            Tcgen05LdRedElement::F32 => "f32",
        }
    }

    /// The type suffix of the LLVM intrinsic.
    pub fn llvm_suffix(self) -> (r: &'static str)
        ensures
            r@ == self.signless_spelling(),
    {
        match self {
            Tcgen05LdRedElement::U32 | Tcgen05LdRedElement::S32 => "i32",
            Tcgen05LdRedElement::F32 => "f32",
        }
    }

    /// The element type in the dialect.
    pub fn dialect_type(self) -> (r: &'static str)
        ensures
            r@ == self.signless_spelling(),
    {
        self.llvm_suffix()
    }
}

/// Distinct shapes are spelled differently, with none of the characters that
/// separate them from their neighbours in a name.
pub proof fn shape_spellings_are_distinct(a: Tcgen05LdShape, b: Tcgen05LdShape)
    ensures
        a.spelling() == b.spelling() ==> a == b,
        !a.spelling().contains('_'),
        !a.spelling().contains('.'),
        !a.spelling().contains('X'),
{
    reveal_strlit("16x64b");
    reveal_strlit("16x128b");
    reveal_strlit("16x256b");
    reveal_strlit("32x32b");
    reveal_strlit("16x32bx2");
    let (x, y) = (a.spelling(), b.spelling());
    assert(x.len() == y.len() && x[0] == y[0] && x[3] == y[3] ==> a == b);
}

/// Distinct repetitions are spelled differently, with none of the characters
/// that separate them from their neighbours in a name.
pub proof fn multiplicity_spellings_are_distinct(
    a: Tcgen05LdMultiplicity,
    b: Tcgen05LdMultiplicity,
)
    ensures
        a.spelling() == b.spelling() ==> a == b,
        !a.spelling().contains('_'),
        !a.spelling().contains('.'),
        a.digits() == b.digits() ==> a == b,
        !a.digits().contains('M'),
{
    reveal_strlit("x");
    reveal_strlit("1");
    reveal_strlit("2");
    reveal_strlit("4");
    reveal_strlit("8");
    reveal_strlit("16");
    reveal_strlit("32");
    reveal_strlit("64");
    reveal_strlit("128");
    assert(a.spelling().skip(1) =~= a.digits());
    assert(b.spelling().skip(1) =~= b.digits());
    let (x, y) = (a.digits(), b.digits());
    assert(x.len() == y.len() && x[0] == y[0] ==> a == b);
}

} // verus!
