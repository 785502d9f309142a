//! CUDA target architectures and their spellings.

use crate::text::{decimal, decimal_reads_back, decimal_text, digits_value, is_digit};
use vstd::prelude::*;

verus! {

/// What follows the compute capability in the name of a target.
#[derive(Debug, Clone, Copy, PartialEq, Eq, Structural)]
pub enum ArchSuffix {
    /// Nothing: code runs on this and on later architectures.
    Plain,
    /// `a`: code runs on exactly this architecture.
    Specific,
    /// `f`: code runs on this architecture's family.
    Family,
}

/// A target architecture: a compute capability and a suffix.
#[derive(Debug, Clone, Copy, PartialEq, Eq, Structural)]
pub struct CudaArch {
    pub capability: u32,
    pub suffix: ArchSuffix,
}

/// A text that does not name a target architecture.
#[derive(Debug, Clone, Copy, PartialEq, Eq, Structural)]
pub struct CudaArchError;

/// The targets with a recorded PTX floor, in the order of PTX releases.
pub const RECORDED_PTX_FLOORS: [(u32, ArchSuffix); 28] = [
    (70, ArchSuffix::Plain),
    (72, ArchSuffix::Plain),
    (75, ArchSuffix::Plain),
    (80, ArchSuffix::Plain),
    (86, ArchSuffix::Plain),
    (87, ArchSuffix::Plain),
    (89, ArchSuffix::Plain),
    (90, ArchSuffix::Plain),
    (90, ArchSuffix::Specific),
    (100, ArchSuffix::Plain),
    (100, ArchSuffix::Specific),
    (101, ArchSuffix::Plain),
    (101, ArchSuffix::Specific),
    (120, ArchSuffix::Plain),
    (120, ArchSuffix::Specific),
    (100, ArchSuffix::Family),
    (101, ArchSuffix::Family),
    (103, ArchSuffix::Plain),
    (103, ArchSuffix::Specific),
    (103, ArchSuffix::Family),
    (120, ArchSuffix::Family),
    (121, ArchSuffix::Plain),
    (121, ArchSuffix::Specific),
    (121, ArchSuffix::Family),
    (88, ArchSuffix::Plain),
    (110, ArchSuffix::Plain),
    (110, ArchSuffix::Specific),
    (110, ArchSuffix::Family),
];

impl ArchSuffix {
    /// The character of the suffix, if there is one.
    pub open spec fn character(self) -> Option<char> {
        match self {
            ArchSuffix::Plain => None,
            ArchSuffix::Specific => Some('a'),
            ArchSuffix::Family => Some('f'),
        }
    }

    /// The suffix as a text.
    pub open spec fn spelling(self) -> Seq<char> {
        match self {
            ArchSuffix::Plain => ""@,
            ArchSuffix::Specific => "a"@,
            ArchSuffix::Family => "f"@,
        }
    }

    /// The suffix as a text.
    pub fn text(self) -> (r: &'static str)
        ensures
            r@ == self.spelling(),
    {
        match self {
            ArchSuffix::Plain => "",
            ArchSuffix::Specific => "a",
            ArchSuffix::Family => "f",
        }
    }
}

/// The part of a target's name after `sm_` or `compute_`, if it has one of
/// these prefixes.
pub open spec fn after_prefix(text: Seq<char>) -> Option<Seq<char>> {
    if "sm_"@.is_prefix_of(text) {
        Some(text.skip("sm_"@.len() as int))
    } else if "compute_"@.is_prefix_of(text) {
        Some(text.skip("compute_"@.len() as int))
    } else {
        None
    }
}

/// The suffix at the end of a target's name.
pub open spec fn suffix_at_end(text: Seq<char>) -> ArchSuffix {
    if text.len() == 0 {
        ArchSuffix::Plain
    } else if text.last() == 'a' {
        ArchSuffix::Specific
    } else if text.last() == 'f' {
        ArchSuffix::Family
    } else {
        ArchSuffix::Plain
    }
}

/// The capability that digits spell: a decimal number that fits 32 bits.
pub open spec fn spelled_capability(digits: Seq<char>) -> Option<u32> {
    if digits.len() > 0 && (forall|i: int| 0 <= i < digits.len() ==> is_digit(#[trigger] digits[i]))
        && digits_value(digits) <= u32::MAX {
        Some(digits_value(digits) as u32)
    } else {
        None
    }
}

/// The target that a capability with a suffix names.
pub open spec fn named_target(text: Seq<char>) -> Option<CudaArch> {
    let suffix = suffix_at_end(text);
    match spelled_capability(
        if suffix == ArchSuffix::Plain {
            text
        } else {
            text.drop_last()
        },
    ) {
        Some(capability) => Some(CudaArch { capability, suffix }),
        None => None,
    }
}

/// The target that a text names, if it names one.
pub open spec fn target_named(text: Seq<char>) -> Option<CudaArch> {
    match after_prefix(text) {
        Some(rest) => named_target(rest),
        None => None,
    }
}

impl CudaArch {
    /// The name of the target: `sm_`, the capability and the suffix.
    pub open spec fn spelling(self) -> Seq<char> {
        "sm_"@ + decimal(self.capability as nat) + self.suffix.spelling()
    }

    /// The target with a capability and a suffix, which is `a`, `f` or none.
    pub fn new(capability: u32, suffix: Option<char>) -> (r: Option<CudaArch>)
        ensures
            match r {
                Some(arch) => arch.capability == capability && arch.suffix.character() == suffix,
                None => suffix is Some && suffix->0 != 'a' && suffix->0 != 'f',
            },
    {
        match suffix {
            None => Some(CudaArch { capability, suffix: ArchSuffix::Plain }),
            Some('a') => Some(CudaArch { capability, suffix: ArchSuffix::Specific }),
            Some('f') => Some(CudaArch { capability, suffix: ArchSuffix::Family }),
            Some(_) => None,
        }
    }

    /// The compute capability.
    pub fn capability(&self) -> (r: u32)
        ensures
            r == self.capability,
    {
        self.capability
    }

    /// The character of the suffix, if there is one.
    pub fn suffix(&self) -> (r: Option<char>)
        ensures
            r == self.suffix.character(),
    {
        match self.suffix {
            ArchSuffix::Plain => None,
            ArchSuffix::Specific => Some('a'),
            ArchSuffix::Family => Some('f'),
        }
    }

    /// The name of the target, with the prefix `sm_`.
    pub fn sm(&self) -> (r: String)
        ensures
            r@ == self.spelling(),
    {
        "sm_".to_owned().concat(decimal_text(self.capability as u64).as_str()).concat(
            self.suffix.text(),
        )
    }

    /// The target that a text names, with the prefix `sm_` or `compute_`.
    pub fn parse(text: &str) -> (r: Option<CudaArch>)
        ensures
            r == target_named(text@),
    {
        if has_prefix(text, "sm_") {
            let start = "sm_".unicode_len();
            parse_after(text, start)
        } else if has_prefix(text, "compute_") {
            let start = "compute_".unicode_len();
            parse_after(text, start)
        } else {
            None
        }
    }
}

impl std::str::FromStr for CudaArch {
    type Err = CudaArchError;

    fn from_str(text: &str) -> (r: Result<CudaArch, CudaArchError>)
        ensures
            match r {
                Ok(arch) => target_named(text@) == Some(arch),
                Err(_) => target_named(text@) is None,
            },
    {
        match CudaArch::parse(text) {
            Some(arch) => Ok(arch),
            None => Err(CudaArchError),
        }
    }
}

/// Whether a text begins with a prefix.
fn has_prefix(text: &str, prefix: &str) -> (r: bool)
    ensures
        r == prefix@.is_prefix_of(text@),
{
    let length = prefix.unicode_len();
    if text.unicode_len() < length {
        return false;
    }
    for i in 0..length
        invariant
            length == prefix@.len(),
            length <= text@.len(),
            forall|j: int| 0 <= j < i ==> text@[j] == #[trigger] prefix@[j],
    {
        if text.get_char(i) != prefix.get_char(i) {
            assert(text@.subrange(0, prefix@.len() as int)[i as int] == text@[i as int]);
            return false;
        }
    }
    assert(prefix@ =~= text@.subrange(0, prefix@.len() as int));
    true
}

/// The digits up to a place spell no more than all of them.
proof fn digits_grow(digits: Seq<char>, k: int)
    requires
        0 <= k <= digits.len(),
    ensures
        digits_value(digits.take(k)) <= digits_value(digits),
    decreases digits.len() - k,
{
    if k == digits.len() {
        assert(digits.take(k) =~= digits);
    } else {
        digits_grow(digits, k + 1);
        assert(digits.take(k + 1).drop_last() =~= digits.take(k));
    }
}

/// The target that the rest of a text names.
fn parse_after(text: &str, start: usize) -> (r: Option<CudaArch>)
    requires
        start <= text@.len(),
    ensures
        r == named_target(text@.skip(start as int)),
{
    let length = text.unicode_len();
    let ghost rest = text@.skip(start as int);
    if start == length {
        return None;
    }
    let last = text.get_char(length - 1);
    assert(rest.last() == last);
    let suffix = if last == 'a' {
        ArchSuffix::Specific
    } else if last == 'f' {
        ArchSuffix::Family
    } else {
        ArchSuffix::Plain
    };
    let end = if suffix == ArchSuffix::Plain {
        length
    } else {
        length - 1
    };
    let ghost digits = text@.subrange(start as int, end as int);
    assert(digits =~= if suffix == ArchSuffix::Plain {
        rest
    } else {
        rest.drop_last()
    });
    if start == end {
        return None;
    }
    let mut value: u64 = 0;
    assert(digits.take(0) =~= seq![]);
    for i in start..end
        invariant
            start < end <= length,
            length == text@.len(),
            digits == text@.subrange(start as int, end as int),
            digits == (if suffix == ArchSuffix::Plain {
                rest
            } else {
                rest.drop_last()
            }),
            suffix == suffix_at_end(rest),
            rest == text@.skip(start as int),
            value <= u32::MAX,
            value == digits_value(digits.take(i - start)),
            forall|j: int| 0 <= j < i - start ==> is_digit(#[trigger] digits[j]),
    {
        let c = text.get_char(i);
        assert(c == digits[i - start]);
        if !('0' <= c && c <= '9') {
            assert(!is_digit(digits[i - start]));
            return None;
        }
        let ghost longer = digits.take(i - start + 1);
        assert(longer.drop_last() =~= digits.take(i - start));
        value = value * 10 + (c as u64 - 48);
        if value > u32::MAX as u64 {
            proof {
                digits_grow(digits, i - start + 1);
            }
            return None;
        }
    }
    assert(digits.take(end - start) =~= digits);
    Some(CudaArch { capability: value as u32, suffix })
}

/// The name of a target reads back as the target.
pub proof fn names_read_back(arch: CudaArch)
    ensures
        target_named(arch.spelling()) == Some(arch),
{
    let digits = decimal(arch.capability as nat);
    let rest = digits + arch.suffix.spelling();
    decimal_reads_back(arch.capability as nat);
    reveal_strlit("");
    reveal_strlit("a");
    reveal_strlit("f");
    assert(arch.spelling().subrange(0, "sm_"@.len() as int) =~= "sm_"@);
    assert(arch.spelling().skip("sm_"@.len() as int) =~= rest);
    if arch.suffix == ArchSuffix::Plain {
        assert(rest =~= digits);
        assert(is_digit(digits[digits.len() - 1]));
    } else {
        assert(rest.drop_last() =~= digits);
    }
}

/// Distinct targets have distinct names.
pub proof fn names_are_distinct(a: CudaArch, b: CudaArch)
    requires
        a.spelling() == b.spelling(),
    ensures
        a == b,
{
    names_read_back(a);
    names_read_back(b);
}

/// The prefixes `sm_` and `compute_` name the same targets.
pub proof fn prefixes_are_equivalent(rest: Seq<char>)
    ensures
        target_named("sm_"@ + rest) == target_named("compute_"@ + rest),
{
    reveal_strlit("sm_");
    reveal_strlit("compute_");
    let x = "sm_"@ + rest;
    let y = "compute_"@ + rest;
    assert(x.subrange(0, 3) =~= "sm_"@);
    assert(y.subrange(0, 8) =~= "compute_"@);
    assert(x.skip(3) =~= rest);
    assert(y.skip(8) =~= rest);
    assert(!"sm_"@.is_prefix_of(y)) by {
        assert(y[0] == 'c');
        if "sm_"@.is_prefix_of(y) {
            assert(y.subrange(0, 3)[0] == 's');
        }
    }
}

/// Suffixes are spelled by their characters.
pub proof fn suffixes_are_spelled_by_a_and_f()
    ensures
        ArchSuffix::Plain.character() is None,
        ArchSuffix::Specific.character() == Some('a'),
        ArchSuffix::Family.character() == Some('f'),
        ArchSuffix::Plain.spelling().len() == 0,
        ArchSuffix::Specific.spelling() == seq!['a'],
        ArchSuffix::Family.spelling() == seq!['f'],
{
    reveal_strlit("");
    reveal_strlit("a");
    reveal_strlit("f");
    assert("a"@ =~= seq!['a']);
    assert("f"@ =~= seq!['f']);
}

/// Whether a text is some digits that spell a number.
pub open spec fn spells(digits: Seq<char>, number: nat) -> bool {
    &&& digits.len() > 0
    &&& forall|i: int| 0 <= i < digits.len() ==> '0' <= #[trigger] digits[i] && digits[i] <= '9'
    &&& digits_value(digits) == number
}

/// Digits behind a prefix name the target with that capability; an `a` or `f`
/// behind them makes it specific to the architecture or the family.
pub proof fn digits_and_suffixes_name_targets(digits: Seq<char>, capability: u32)
    requires
        spells(digits, capability as nat),
    ensures
        target_named("sm_"@ + digits) == Some(CudaArch { capability, suffix: ArchSuffix::Plain }),
        target_named("sm_"@ + (digits + seq!['a'])) == Some(
            CudaArch { capability, suffix: ArchSuffix::Specific },
        ),
        target_named("sm_"@ + (digits + seq!['f'])) == Some(
            CudaArch { capability, suffix: ArchSuffix::Family },
        ),
        target_named("compute_"@ + digits) == Some(
            CudaArch { capability, suffix: ArchSuffix::Plain },
        ),
        target_named("compute_"@ + (digits + seq!['a'])) == Some(
            CudaArch { capability, suffix: ArchSuffix::Specific },
        ),
        target_named("compute_"@ + (digits + seq!['f'])) == Some(
            CudaArch { capability, suffix: ArchSuffix::Family },
        ),
{
    prefixes_are_equivalent(digits);
    prefixes_are_equivalent(digits + seq!['a']);
    prefixes_are_equivalent(digits + seq!['f']);
    prefix_is_taken_off(digits);
    prefix_is_taken_off(digits + seq!['a']);
    prefix_is_taken_off(digits + seq!['f']);
    let last = digits[digits.len() - 1];
    assert('0' <= last && last <= '9');
    assert forall|i: int| 0 <= i < digits.len() implies is_digit(#[trigger] digits[i]) by {}
    assert((digits + seq!['a']).drop_last() =~= digits);
    assert((digits + seq!['f']).drop_last() =~= digits);
}

proof fn prefix_is_taken_off(rest: Seq<char>)
    ensures
        target_named("sm_"@ + rest) == named_target(rest),
{
    let x = "sm_"@ + rest;
    assert(x.subrange(0, "sm_"@.len() as int) =~= "sm_"@);
    assert(x.skip("sm_"@.len() as int) =~= rest);
}

/// A text names a target only if it is a prefix, digits of the capability and
/// the suffix.
pub proof fn only_digits_and_suffixes_name_targets(text: Seq<char>)
    requires
        target_named(text) is Some,
    ensures
        exists|digits: Seq<char>|
            #![trigger spells(digits, target_named(text)->0.capability as nat)]
            spells(digits, target_named(text)->0.capability as nat) && (text == "sm_"@ + digits
                + target_named(text)->0.suffix.spelling() || text == "compute_"@ + digits
                + target_named(text)->0.suffix.spelling()),
{
    let arch = target_named(text)->0;
    let rest = after_prefix(text)->0;
    suffixes_are_spelled_by_a_and_f();
    let digits = if arch.suffix == ArchSuffix::Plain {
        rest
    } else {
        rest.drop_last()
    };
    assert(suffix_at_end(rest) == arch.suffix);
    assert(rest =~= digits + arch.suffix.spelling());
    assert forall|i: int| 0 <= i < digits.len() implies '0' <= #[trigger] digits[i] && digits[i]
        <= '9' by {
        assert(is_digit(digits[i]));
    }
    assert(spells(digits, arch.capability as nat));
    if "sm_"@.is_prefix_of(text) {
        let n = "sm_"@.len() as int;
        assert(text =~= text.subrange(0, n) + text.skip(n));
        assert(text =~= "sm_"@ + digits + arch.suffix.spelling());
    } else {
        let n = "compute_"@.len() as int;
        assert(text =~= text.subrange(0, n) + text.skip(n));
        assert(text =~= "compute_"@ + digits + arch.suffix.spelling());
    }
}

/// The name of a target is `sm_`, its capability, and `a` or `f` if it is
/// specific.
pub proof fn names_are_spelled_from_their_parts(capability: u32)
    ensures
        (CudaArch { capability, suffix: ArchSuffix::Plain }).spelling() == "sm_"@ + decimal(
            capability as nat,
        ),
        (CudaArch { capability, suffix: ArchSuffix::Specific }).spelling() == "sm_"@ + decimal(
            capability as nat,
        ) + seq!['a'],
        (CudaArch { capability, suffix: ArchSuffix::Family }).spelling() == "sm_"@ + decimal(
            capability as nat,
        ) + seq!['f'],
{
    suffixes_are_spelled_by_a_and_f();
    assert((CudaArch { capability, suffix: ArchSuffix::Plain }).spelling() =~= "sm_"@ + decimal(
        capability as nat,
    ));
}

} // verus!
