//! Text building blocks: decimal numbers, joined lists and blank checks.
//!
//! Every text is modelled by its sequence of characters, `text@`.

use vstd::prelude::*;

verus! {

/// The texts that a list of strings holds.
pub open spec fn texts(strings: Seq<String>) -> Seq<Seq<char>> {
    strings.map_values(|s: String| s@)
}

/// The texts that a list of string slices holds.
pub open spec fn slice_texts(strings: Seq<&str>) -> Seq<Seq<char>> {
    strings.map_values(|s: &str| s@)
}

/// The text of an optional string.
pub open spec fn optional_text(text: Option<String>) -> Option<Seq<char>> {
    match text {
        Some(s) => Some(s@),
        None => None,
    }
}

/// The character that spells a decimal digit.
pub open spec fn digit(d: nat) -> char
    recommends
        d < 10,
{
    (48 + d) as char
}

/// Whether a character is an ASCII decimal digit.
pub open spec fn is_digit(c: char) -> bool {
    '0' <= c && c <= '9'
}

/// The decimal spelling of a number, without leading zeros.
pub open spec fn decimal(n: nat) -> Seq<char>
    decreases n,
{
    if n < 10 {
        seq![digit(n)]
    } else {
        decimal(n / 10).push(digit(n % 10))
    }
}

/// The number that a sequence of decimal digits spells.
pub open spec fn digits_value(digits: Seq<char>) -> nat
    decreases digits.len(),
{
    if digits.len() == 0 {
        0
    } else {
        10 * digits_value(digits.drop_last()) + (digits.last() as nat - 48) as nat
    }
}

/// The parts in order, with the separator between neighbours.
pub open spec fn joined(parts: Seq<Seq<char>>, separator: Seq<char>) -> Seq<char>
    decreases parts.len(),
{
    if parts.len() == 0 {
        Seq::empty()
    } else if parts.len() == 1 {
        parts[0]
    } else {
        joined(parts.drop_last(), separator) + separator + parts.last()
    }
}

/// A list that holds one text a number of times.
pub open spec fn repeated(text: Seq<char>, count: nat) -> Seq<Seq<char>> {
    Seq::new(count, |i: int| text)
}

/// A list with one text if a condition holds, and an empty list otherwise.
pub open spec fn text_if(condition: bool, text: Seq<char>) -> Seq<Seq<char>> {
    if condition {
        seq![text]
    } else {
        Seq::empty()
    }
}

/// Whether a character has the Unicode `White_Space` property.
pub open spec fn is_white_space(c: char) -> bool {
    ||| 0x9 <= c as u32 <= 0xd
    ||| c as u32 == 0x20
    ||| c as u32 == 0x85
    ||| c as u32 == 0xa0
    ||| c as u32 == 0x1680
    ||| 0x2000 <= c as u32 <= 0x200a
    ||| c as u32 == 0x2028
    ||| c as u32 == 0x2029
    ||| c as u32 == 0x202f
    ||| c as u32 == 0x205f
    ||| c as u32 == 0x3000
}

/// Whether nothing but white space stands in a text.
pub open spec fn is_blank(text: Seq<char>) -> bool {
    forall|i: int| 0 <= i < text.len() ==> is_white_space(#[trigger] text[i])
}

/// A decimal spelling is not empty and holds digits only, and reading it back
/// gives the number.
pub proof fn decimal_reads_back(n: nat)
    ensures
        decimal(n).len() > 0,
        forall|i: int| 0 <= i < decimal(n).len() ==> is_digit(#[trigger] decimal(n)[i]),
        digits_value(decimal(n)) == n,
    decreases n,
{
    if n < 10 {
        assert(decimal(n).drop_last() =~= Seq::<char>::empty());
        assert(decimal(n).last() == digit(n));
        assert(digits_value(decimal(n).drop_last()) == 0);
    } else {
        decimal_reads_back(n / 10);
        assert(decimal(n).drop_last() =~= decimal(n / 10));
    }
}

/// Distinct numbers have distinct decimal spellings.
pub proof fn decimal_is_injective(m: nat, n: nat)
    ensures
        decimal(m) == decimal(n) ==> m == n,
{
    decimal_reads_back(m);
    decimal_reads_back(n);
}

/// Whether a text stands within another one.
pub open spec fn occurs_in(part: Seq<char>, text: Seq<char>) -> bool {
    exists|at: int|
        0 <= at && at + part.len() <= text.len() && part == #[trigger] text.subrange(
            at,
            at + part.len(),
        )
}

/// A text that stands within another one also stands within its extensions.
pub proof fn occurs_in_extension(
    part: Seq<char>,
    before: Seq<char>,
    text: Seq<char>,
    after: Seq<char>,
)
    requires
        occurs_in(part, text),
    ensures
        occurs_in(part, before + text + after),
{
    let at = choose|at: int|
        0 <= at && at + part.len() <= text.len() && part == #[trigger] text.subrange(
            at,
            at + part.len(),
        );
    let whole = before + text + after;
    let shifted = before.len() + at;
    assert(whole.subrange(shifted, shifted + part.len()) =~= part);
}

/// Every part stands within the joined text.
pub proof fn parts_occur_in_joined(parts: Seq<Seq<char>>, separator: Seq<char>, i: int)
    requires
        0 <= i < parts.len(),
    ensures
        occurs_in(parts[i], joined(parts, separator)),
    decreases parts.len(),
{
    let text = joined(parts, separator);
    let none = Seq::<char>::empty();
    assert(parts[i] =~= parts[i].subrange(0, 0int + parts[i].len()));
    assert(occurs_in(parts[i], parts[i]));
    if parts.len() > 1 {
        let front = joined(parts.drop_last(), separator);
        if i == parts.len() - 1 {
            occurs_in_extension(parts[i], front + separator, parts[i], none);
            assert(front + separator + parts[i] + none =~= text);
        } else {
            parts_occur_in_joined(parts.drop_last(), separator, i);
            occurs_in_extension(parts[i], none, front, separator + parts.last());
            assert(none + front + (separator + parts.last()) =~= text);
        }
    }
}

/// A text splits at the first occurrence of a separator in one way only.
pub proof fn split_is_unique(
    a: Seq<char>,
    b: Seq<char>,
    separator: char,
    x: Seq<char>,
    y: Seq<char>,
)
    requires
        !a.contains(separator),
        !b.contains(separator),
        a + seq![separator] + x == b + seq![separator] + y,
    ensures
        a == b,
        x == y,
{
    let s = a + seq![separator] + x;
    let t = b + seq![separator] + y;
    assert(s[a.len() as int] == separator);
    assert(t[b.len() as int] == separator);
    if a.len() < b.len() {
        assert(t[a.len() as int] == b[a.len() as int]);
    } else if b.len() < a.len() {
        assert(s[b.len() as int] == a[b.len() as int]);
    }
    assert(a =~= s.take(a.len() as int));
    assert(b =~= t.take(b.len() as int));
    assert(x =~= s.skip(a.len() + 1int));
    assert(y =~= t.skip(b.len() + 1int));
}

/// The one-character text of a digit.
fn digit_text(d: u64) -> (r: &'static str)
    requires
        d < 10,
    ensures
        r@ == seq![digit(d as nat)],
{
    proof {
        reveal_strlit("0");
        reveal_strlit("1");
        reveal_strlit("2");
        reveal_strlit("3");
        reveal_strlit("4");
        reveal_strlit("5");
        reveal_strlit("6");
        reveal_strlit("7");
        reveal_strlit("8");
        reveal_strlit("9");
    }
    match d {
        0 => "0",
        1 => "1",
        2 => "2",
        3 => "3",
        4 => "4",
        5 => "5",
        6 => "6",
        7 => "7",
        8 => "8",
        _ => "9",
    }
}

/// Spells a number in decimal.
pub fn decimal_text(n: u64) -> (r: String)
    ensures
        r@ == decimal(n as nat),
    decreases n,
{
    if n < 10 {
        digit_text(n).to_owned()
    } else {
        let mut text = decimal_text(n / 10);
        text.append(digit_text(n % 10));
        text
    }
}

/// Joins the parts with the separator between neighbours.
pub fn join(parts: &Vec<String>, separator: &str) -> (r: String)
    ensures
        r@ == joined(texts(parts@), separator@),
{
    let mut text = String::new();
    let ghost all = texts(parts@);
    for i in 0..parts.len()
        invariant
            all == texts(parts@),
            text@ == joined(all.take(i as int), separator@),
    {
        assert(all.take(i + 1).drop_last() =~= all.take(i as int));
        if i > 0 {
            text.append(separator);
        }
        text.append(parts[i].as_str());
        if i == 0 {
            assert(text@ =~= all[0]);
        }
    }
    assert(all.take(parts.len() as int) =~= all);
    text
}

/// Adds a copy of one text to a list.
pub fn push_text(list: &mut Vec<String>, text: &str)
    ensures
        texts(final(list)@) == texts(old(list)@) + seq![text@],
{
    let ghost before = texts(list@);
    list.push(text.to_owned());
    assert(texts(list@) =~= before + seq![text@]);
}

/// Adds a copy of one text to a list if a condition holds.
pub fn push_text_if(list: &mut Vec<String>, condition: bool, text: &str)
    ensures
        texts(final(list)@) == texts(old(list)@) + text_if(condition, text@),
{
    if condition {
        push_text(list, text);
    } else {
        assert(texts(list@) =~= texts(list@) + text_if(condition, text@));
    }
}

/// Adds a number of copies of one text to a list.
pub fn push_repeated(list: &mut Vec<String>, text: &str, count: usize)
    ensures
        texts(final(list)@) == texts(old(list)@) + repeated(text@, count as nat),
{
    let ghost before = texts(list@);
    assert(before =~= before + repeated(text@, 0));
    for i in 0..count
        invariant
            texts(list@) == before + repeated(text@, i as nat),
    {
        push_text(list, text);
        assert(texts(list@) =~= before + repeated(text@, (i + 1) as nat));
    }
}

/// Whether two texts are equal.
pub fn same_text(a: &str, b: &str) -> (r: bool)
    ensures
        r == (a@ == b@),
{
    a.to_owned() == b.to_owned()
}

/// Whether an optional text is present and equal to `expected`.
pub fn is_text(text: &Option<String>, expected: &str) -> (r: bool)
    ensures
        r == (optional_text(*text) == Some(expected@)),
{
    match text {
        Some(s) => same_text(s.as_str(), expected),
        None => false,
    }
}

/// Whether the texts of a list are the expected ones, in order.
pub fn same_texts(actual: &Vec<String>, expected: &Vec<String>) -> (r: bool)
    ensures
        r == (texts(actual@) == texts(expected@)),
{
    if actual.len() != expected.len() {
        assert(texts(actual@).len() != texts(expected@).len());
        return false;
    }
    for i in 0..actual.len()
        invariant
            actual.len() == expected.len(),
            forall|j: int| 0 <= j < i ==> texts(actual@)[j] == #[trigger] texts(expected@)[j],
    {
        if actual[i] != expected[i] {
            assert(texts(actual@)[i as int] != texts(expected@)[i as int]);
            return false;
        }
    }
    assert(texts(actual@) =~= texts(expected@));
    true
}

/// Whether a list holds one text, the expected one.
pub fn is_only_text(list: &Vec<String>, expected: &str) -> (r: bool)
    ensures
        r == (texts(list@) == seq![expected@]),
{
    if list.len() != 1 {
        assert(texts(list@).len() != seq![expected@].len());
        return false;
    }
    assert(texts(list@)[0] == list@[0]@);
    if same_text(list[0].as_str(), expected) {
        assert(texts(list@) =~= seq![expected@]);
        true
    } else {
        assert(seq![expected@][0] == expected@);
        false
    }
}

/// Copies a list of string slices.
pub fn owned_texts(slices: &Vec<&'static str>) -> (r: Vec<String>)
    ensures
        texts(r@) == slice_texts(slices@),
{
    let mut list: Vec<String> = Vec::new();
    assert(texts(list@) =~= slice_texts(slices@).take(0));
    for i in 0..slices.len()
        invariant
            texts(list@) == slice_texts(slices@).take(i as int),
    {
        push_text(&mut list, slices[i]);
        assert(texts(list@) =~= slice_texts(slices@).take(i + 1));
    }
    assert(slice_texts(slices@).take(slices.len() as int) =~= slice_texts(slices@));
    list
}

/// Whether an optional text is present and not blank.
pub fn is_given(text: &Option<String>) -> (r: bool)
    ensures
        r == (text is Some && !is_blank(text->0@)),
{
    match text {
        Some(s) => !blank(s.as_str()),
        None => false,
    }
}

/// Copies a list of strings.
pub fn copy_texts(strings: &Vec<String>) -> (r: Vec<String>)
    ensures
        r@ == strings@,
{
    let mut copy: Vec<String> = Vec::new();
    for i in 0..strings.len()
        invariant
            copy@ == strings@.take(i as int),
    {
        copy.push(strings[i].clone());
        assert(copy@ =~= strings@.take(i + 1));
    }
    assert(strings@.take(strings.len() as int) =~= strings@);
    copy
}

/// Copies an optional string.
pub fn copy_optional_text(text: &Option<String>) -> (r: Option<String>)
    ensures
        r == *text,
{
    match text {
        Some(s) => Some(s.clone()),
        None => None,
    }
}

/// Whether a character has the Unicode `White_Space` property.
pub fn white_space(c: char) -> (r: bool)
    ensures
        r == is_white_space(c),
{
    let code: u32 = c as u32;
    (0x9 <= code && code <= 0xd) || code == 0x20 || code == 0x85 || code == 0xa0 || code == 0x1680
        || (0x2000 <= code && code <= 0x200a) || code == 0x2028 || code == 0x2029 || code == 0x202f
        || code == 0x205f || code == 0x3000
}

/// Whether nothing but white space stands in a text.
pub fn blank(text: &str) -> (r: bool)
    ensures
        r == is_blank(text@),
{
    let length = text.unicode_len();
    for i in 0..length
        invariant
            length == text@.len(),
            forall|j: int| 0 <= j < i ==> is_white_space(#[trigger] text@[j]),
    {
        if !white_space(text.get_char(i)) {
            return false;
        }
    }
    true
}

/// The decimals of the digits are the digits.
pub proof fn digits_spell_themselves()
    ensures
        decimal(0) == "0"@,
        decimal(1) == "1"@,
        decimal(2) == "2"@,
        decimal(3) == "3"@,
        decimal(4) == "4"@,
        decimal(5) == "5"@,
        decimal(6) == "6"@,
        decimal(7) == "7"@,
        decimal(8) == "8"@,
        decimal(9) == "9"@,
{
    reveal_strlit("0");
    reveal_strlit("1");
    reveal_strlit("2");
    reveal_strlit("3");
    reveal_strlit("4");
    reveal_strlit("5");
    reveal_strlit("6");
    reveal_strlit("7");
    reveal_strlit("8");
    reveal_strlit("9");
    assert(decimal(0) =~= "0"@);
    assert(decimal(1) =~= "1"@);
    assert(decimal(2) =~= "2"@);
    assert(decimal(3) =~= "3"@);
    assert(decimal(4) =~= "4"@);
    assert(decimal(5) =~= "5"@);
    assert(decimal(6) =~= "6"@);
    assert(decimal(7) =~= "7"@);
    assert(decimal(8) =~= "8"@);
    assert(decimal(9) =~= "9"@);
}

/// Ten times a number and a digit is spelled as the number and the digit, and
/// only zero begins with a zero.
pub proof fn decimals_grow_by_digits(n: nat, d: nat)
    requires
        d < 10,
    ensures
        n > 0 ==> decimal(10 * n + d) == decimal(n) + decimal(d),
        decimal(n)[0] == '0' ==> n == 0,
    decreases n,
{
    if n > 0 {
        assert((10 * n + d) / 10 == n);
        assert((10 * n + d) % 10 == d);
        assert(decimal(10 * n + d) =~= decimal(n) + decimal(d));
    }
    if n >= 10 {
        decimals_grow_by_digits(n / 10, 0);
        decimal_reads_back(n / 10);
        assert(decimal(n)[0] == decimal(n / 10)[0]);
    }
}

/// Zeros in front of digits change nothing, and a digit behind them counts one
/// and makes them count tenfold.
pub proof fn digits_count_by_place(digits: Seq<char>, d: nat)
    requires
        d < 10,
    ensures
        digits_value(seq![]) == 0,
        digits_value(digits + decimal(d)) == 10 * digits_value(digits) + d,
        digits_value("0"@ + digits) == digits_value(digits),
    decreases digits.len(),
{
    reveal_strlit("0");
    assert((digits + decimal(d)).drop_last() =~= digits);
    assert((digits + decimal(d)).last() == digit(d));
    let longer = "0"@ + digits;
    if digits.len() == 0 {
        assert(longer.drop_last() =~= seq![]);
        assert(longer.last() == '0');
        assert(digits_value(longer.drop_last()) == 0);
    } else {
        digits_count_by_place(digits.drop_last(), d);
        assert(longer.drop_last() =~= "0"@ + digits.drop_last());
        assert(longer.last() == digits.last());
    }
}

/// Joining lists: nothing for none, the part for one, and one separator between
/// two lists.
pub proof fn joined_lists_join(p: Seq<Seq<char>>, q: Seq<Seq<char>>, part: Seq<char>, separator: Seq<char>)
    ensures
        joined(seq![], separator).len() == 0,
        joined(seq![part], separator) == part,
        p.len() > 0 && q.len() > 0 ==> joined(p + q, separator) == joined(p, separator) + separator
            + joined(q, separator),
    decreases q.len(),
{
    assert(seq![part].drop_last() =~= seq![]);
    if p.len() > 0 && q.len() > 0 {
        assert((p + q).drop_last() =~= p + q.drop_last());
        assert((p + q).last() == q.last());
        if q.len() == 1 {
            assert(p + q.drop_last() =~= p);
        } else {
            joined_lists_join(p, q.drop_last(), part, separator);
            assert(joined(p + q, separator) =~= joined(p, separator) + separator + joined(
                q,
                separator,
            ));
        }
    }
}

/// The texts of lists are those of their strings, one by one.
pub proof fn texts_are_those_held(
    strings: Seq<String>,
    slices: Seq<&str>,
    text: Seq<char>,
    string: String,
    count: nat,
)
    ensures
        texts(strings).len() == strings.len(),
        forall|i: int| 0 <= i < strings.len() ==> #[trigger] texts(strings)[i] == strings[i]@,
        slice_texts(slices).len() == slices.len(),
        forall|i: int| 0 <= i < slices.len() ==> #[trigger] slice_texts(slices)[i] == slices[i]@,
        optional_text(None) is None,
        optional_text(Some(string)) == Some(string@),
        repeated(text, count).len() == count,
        forall|i: int| 0 <= i < count ==> #[trigger] repeated(text, count)[i] == text,
        text_if(true, text) == seq![text],
        text_if(false, text).len() == 0,
{
}

/// A text stands within another one exactly if that is it with something before
/// and after.
pub proof fn occurrences_are_parts(part: Seq<char>, text: Seq<char>)
    ensures
        occurs_in(part, text) <==> exists|before: Seq<char>, after: Seq<char>|
            text == #[trigger] (before + part + after),
{
    if occurs_in(part, text) {
        let at = choose|at: int|
            0 <= at && at + part.len() <= text.len() && part == #[trigger] text.subrange(
                at,
                at + part.len(),
            );
        let before = text.take(at);
        let after = text.skip(at + part.len());
        assert(text =~= before + part + after);
    }
    if exists|before: Seq<char>, after: Seq<char>| text == #[trigger] (before + part + after) {
        let (before, after) = choose|before: Seq<char>, after: Seq<char>|
            text == #[trigger] (before + part + after);
        let at = before.len() as int;
        assert(text.subrange(at, at + part.len()) =~= part);
    }
}

/// The white-space characters of Unicode, and no others.
pub proof fn white_space_is_these(c: char)
    ensures
        is_white_space(c) <==> c == '\u{9}' || c == '\u{a}' || c == '\u{b}' || c == '\u{c}' || c
            == '\u{d}' || c == ' ' || c == '\u{85}' || c == '\u{a0}' || c == '\u{1680}' || c
            == '\u{2000}' || c == '\u{2001}' || c == '\u{2002}' || c == '\u{2003}' || c
            == '\u{2004}' || c == '\u{2005}' || c == '\u{2006}' || c == '\u{2007}' || c
            == '\u{2008}' || c == '\u{2009}' || c == '\u{200a}' || c == '\u{2028}' || c
            == '\u{2029}' || c == '\u{202f}' || c == '\u{205f}' || c == '\u{3000}',
{
}

/// A text is blank exactly if each of its characters is white space.
pub proof fn blank_texts_grow_by_white_space(text: Seq<char>, c: char)
    ensures
        is_blank(seq![]),
        is_blank(text.push(c)) <==> is_blank(text) && is_white_space(c),
{
    let longer = text.push(c);
    if is_blank(longer) {
        assert(is_white_space(longer[text.len() as int]));
        assert forall|i: int| 0 <= i < text.len() implies is_white_space(#[trigger] text[i]) by {
            assert(longer[i] == text[i]);
        }
    }
}

} // verus!
