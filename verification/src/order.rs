//! Ascending lists without repetition, over numbers and over texts.

use crate::text::texts;
use vstd::prelude::*;

verus! {

/// Whether every element precedes all later ones.
pub open spec fn ascending<T>(s: Seq<T>, less: spec_fn(T, T) -> bool) -> bool {
    forall|i: int, j: int| 0 <= i < j < s.len() ==> less(#[trigger] s[i], #[trigger] s[j])
}

/// Whether a relation is a strict total order.
pub open spec fn strict_total_order<T>(less: spec_fn(T, T) -> bool) -> bool {
    &&& forall|a: T| !#[trigger] less(a, a)
    &&& forall|a: T, b: T, c: T|
        #![trigger less(a, b), less(b, c)]
        less(a, b) && less(b, c) ==> less(a, c)
    &&& forall|a: T, b: T| #[trigger] less(a, b) || a == b || less(b, a)
}

/// The ascending list of the members of a set.
pub open spec fn ascending_members<T>(members: Set<T>, less: spec_fn(T, T) -> bool) -> Seq<T> {
    choose|s: Seq<T>| ascending(s, less) && #[trigger] s.to_set() == members
}

/// The order of numbers.
pub open spec fn number_less() -> spec_fn(u32, u32) -> bool {
    |a: u32, b: u32| a < b
}

/// The order of texts: by the first character at which they differ, a prefix
/// before its extensions.
pub open spec fn text_precedes(a: Seq<char>, b: Seq<char>) -> bool
    decreases a.len(),
{
    if b.len() == 0 {
        false
    } else if a.len() == 0 {
        true
    } else if a[0] != b[0] {
        a[0] < b[0]
    } else {
        text_precedes(a.drop_first(), b.drop_first())
    }
}

/// [`text_precedes`] as a relation.
pub open spec fn text_less() -> spec_fn(Seq<char>, Seq<char>) -> bool {
    |a: Seq<char>, b: Seq<char>| text_precedes(a, b)
}

/// Two ascending lists with the same members are the same list.
pub proof fn ascending_is_unique<T>(a: Seq<T>, b: Seq<T>, less: spec_fn(T, T) -> bool)
    requires
        strict_total_order(less),
        ascending(a, less),
        ascending(b, less),
        a.to_set() == b.to_set(),
    ensures
        a == b,
    decreases a.len(),
{
    if a.len() == 0 {
        if b.len() > 0 {
            assert(b.to_set().contains(b[0]));
            assert(a.contains(b[0]));
        }
        assert(a =~= b);
    } else {
        assert(a.to_set().contains(a[0]));
        assert(b.contains(a[0]));
        let j = choose|j: int| 0 <= j < b.len() && b[j] == a[0];
        assert(b.to_set().contains(b[0]));
        assert(a.contains(b[0]));
        let i = choose|i: int| 0 <= i < a.len() && a[i] == b[0];
        if j > 0 {
            assert(less(b[0], b[j]));
            if i > 0 {
                assert(less(a[0], a[i]));
            }
            assert(less(a[0], a[0]));
        }
        let ta = a.drop_first();
        let tb = b.drop_first();
        assert forall|x: T| ta.to_set().contains(x) == tb.to_set().contains(x) by {
            if ta.contains(x) {
                let k = choose|k: int| 0 <= k < ta.len() && ta[k] == x;
                assert(a[k + 1] == x);
                assert(less(a[0], a[k + 1]));
                assert(a.to_set().contains(x));
                assert(b.contains(x));
                let m = choose|m: int| 0 <= m < b.len() && b[m] == x;
                assert(m != 0);
                assert(tb[m - 1] == x);
            }
            if tb.contains(x) {
                let k = choose|k: int| 0 <= k < tb.len() && tb[k] == x;
                assert(b[k + 1] == x);
                assert(less(b[0], b[k + 1]));
                assert(b.to_set().contains(x));
                assert(a.contains(x));
                let m = choose|m: int| 0 <= m < a.len() && a[m] == x;
                assert(m != 0);
                assert(ta[m - 1] == x);
            }
        }
        assert(ta.to_set() =~= tb.to_set());
        assert(ascending(ta, less)) by {
            assert forall|p: int, q: int| 0 <= p < q < ta.len() implies less(
                #[trigger] ta[p],
                #[trigger] ta[q],
            ) by {
                assert(less(a[p + 1], a[q + 1]));
            }
        }
        assert(ascending(tb, less)) by {
            assert forall|p: int, q: int| 0 <= p < q < tb.len() implies less(
                #[trigger] tb[p],
                #[trigger] tb[q],
            ) by {
                assert(less(b[p + 1], b[q + 1]));
            }
        }
        ascending_is_unique(ta, tb, less);
        assert(a =~= seq![a[0]] + ta);
        assert(b =~= seq![b[0]] + tb);
    }
}

/// An ascending list is the ascending list of its members.
pub proof fn ascending_members_is<T>(s: Seq<T>, members: Set<T>, less: spec_fn(T, T) -> bool)
    requires
        strict_total_order(less),
        ascending(s, less),
        s.to_set() == members,
    ensures
        ascending_members(members, less) == s,
{
    ascending_is_unique(ascending_members(members, less), s, less);
}

/// An ascending list without an element has a place for it.
proof fn place_for<T>(s: Seq<T>, value: T, less: spec_fn(T, T) -> bool) -> (at: int)
    requires
        strict_total_order(less),
        ascending(s, less),
        !s.contains(value),
    ensures
        0 <= at <= s.len(),
        ascending(s.insert(at, value), less),
    decreases s.len(),
{
    let mut at = s.len() as int;
    if s.len() > 0 && !less(s.last(), value) {
        assert(s[s.len() - 1] == s.last());
        let shorter = s.drop_last();
        assert(ascending(shorter, less)) by {
            assert forall|i: int, j: int| 0 <= i < j < shorter.len() implies less(
                #[trigger] shorter[i],
                #[trigger] shorter[j],
            ) by {
                assert(less(s[i], s[j]));
            }
        }
        if shorter.contains(value) {
            let k = choose|k: int| 0 <= k < shorter.len() && shorter[k] == value;
            assert(s[k] == value);
        }
        at = place_for(shorter, value, less);
        let t = s.insert(at, value);
        let u = shorter.insert(at, value);
        assert(t =~= u.push(s.last()));
        assert(less(value, s.last()));
        assert forall|i: int, j: int| 0 <= i < j < t.len() implies less(
            #[trigger] t[i],
            #[trigger] t[j],
        ) by {
            if j < u.len() {
                assert(t[i] == u[i] && t[j] == u[j]);
                assert(less(u[i], u[j]));
            } else if i < at {
                assert(t[i] == s[i]);
                assert(less(s[i], s[s.len() - 1]));
            } else if i > at {
                assert(t[i] == s[i - 1]);
                assert(less(s[i - 1], s[s.len() - 1]));
            }
        }
    } else {
        let t = s.insert(at, value);
        assert forall|i: int, j: int| 0 <= i < j < t.len() implies less(
            #[trigger] t[i],
            #[trigger] t[j],
        ) by {
            if j < s.len() {
                assert(less(s[i], s[j]));
            } else if i < s.len() - 1 {
                assert(less(s[i], s[s.len() - 1]));
            }
        }
    }
    at
}

/// The elements of a list can be brought into an ascending one.
proof fn sorted<T>(s: Seq<T>, less: spec_fn(T, T) -> bool) -> (t: Seq<T>)
    requires
        strict_total_order(less),
    ensures
        ascending(t, less),
        t.to_set() == s.to_set(),
    decreases s.len(),
{
    if s.len() == 0 {
        s
    } else {
        let before = sorted(s.drop_last(), less);
        let value = s.last();
        insert_adds_member(s.drop_last(), s.len() - 1, value);
        assert(s.drop_last().insert(s.len() - 1, value) =~= s);
        if before.contains(value) {
            assert(before.to_set().contains(value));
            assert(before.to_set() =~= s.to_set());
            before
        } else {
            let at = place_for(before, value, less);
            insert_adds_member(before, at, value);
            before.insert(at, value)
        }
    }
}

/// The ascending list of the elements of a list holds these, in order.
pub proof fn ascending_members_exist<T>(s: Seq<T>, less: spec_fn(T, T) -> bool)
    requires
        strict_total_order(less),
    ensures
        ascending(ascending_members(s.to_set(), less), less),
        ascending_members(s.to_set(), less).to_set() == s.to_set(),
{
    let t = sorted(s, less);
    ascending_members_is(t, s.to_set(), less);
}

/// The order of numbers is a strict total order.
pub proof fn number_order()
    ensures
        strict_total_order(number_less()),
{
}

proof fn text_order_steps(a: Seq<char>, b: Seq<char>, c: Seq<char>)
    ensures
        !text_precedes(a, a),
        text_precedes(a, b) && text_precedes(b, c) ==> text_precedes(a, c),
        text_precedes(a, b) || a == b || text_precedes(b, a),
    decreases a.len(),
{
    if a.len() > 0 {
        text_order_steps(a.drop_first(), a.drop_first(), a.drop_first());
    }
    if a.len() > 0 && b.len() > 0 && a[0] == b[0] {
        text_order_steps(a.drop_first(), b.drop_first(), Seq::empty());
        if a.drop_first() == b.drop_first() {
            assert(a =~= seq![a[0]] + a.drop_first());
            assert(b =~= seq![b[0]] + b.drop_first());
        }
    }
    if a.len() == 0 && b.len() == 0 {
        assert(a =~= b);
    }
    if a.len() > 0 && b.len() > 0 && c.len() > 0 {
        text_order_steps(a.drop_first(), b.drop_first(), c.drop_first());
    }
}

/// The order of texts is a strict total order.
pub proof fn text_order()
    ensures
        strict_total_order(text_less()),
{
    let less = text_less();
    assert forall|a: Seq<char>| !#[trigger] less(a, a) by {
        text_order_steps(a, a, a);
    }
    assert forall|a: Seq<char>, b: Seq<char>, c: Seq<char>|
        #![trigger less(a, b), less(b, c)]
        less(a, b) && less(b, c) implies less(a, c) by {
        text_order_steps(a, b, c);
    }
    assert forall|a: Seq<char>, b: Seq<char>| #[trigger]
        less(a, b) || a == b || less(b, a) by {
        text_order_steps(a, b, a);
    }
}

/// Adds a number to an ascending list, unless it is there.
pub fn insert_number(list: &mut Vec<u32>, value: u32)
    requires
        ascending(old(list)@, number_less()),
    ensures
        ascending(final(list)@, number_less()),
        final(list)@.to_set() == old(list)@.to_set().insert(value),
{
    let ghost before = list@;
    let ghost less = number_less();
    let mut at: usize = 0;
    while at < list.len() && list[at] < value
        invariant
            at <= list.len(),
            list@ == before,
            forall|i: int| 0 <= i < at ==> list@[i] < value,
        decreases list.len() - at,
    {
        at = at + 1;
    }
    if at < list.len() && list[at] == value {
        assert(before.to_set().insert(value) =~= before.to_set()) by {
            assert(before.contains(before[at as int]));
        }
        return ;
    }
    assert forall|j: int| at <= j < before.len() implies value < #[trigger] before[j] by {
        if j > at {
            assert(less(before[at as int], before[j]));
        }
    }
    list.insert(at, value);
    assert(list@ == before.insert(at as int, value));
    assert forall|i: int, j: int| 0 <= i < j < list@.len() implies less(
        #[trigger] list@[i],
        #[trigger] list@[j],
    ) by {
        if j < at {
            assert(less(before[i], before[j]));
        } else if i > at {
            assert(less(before[i - 1], before[j - 1]));
        } else if i < at && j > at {
            assert(before[i] < value && value < before[j - 1]);
        }
    }
    proof {
        insert_adds_member(before, at as int, value);
    }
}

proof fn insert_adds_member<T>(s: Seq<T>, at: int, value: T)
    requires
        0 <= at <= s.len(),
    ensures
        s.insert(at, value).to_set() == s.to_set().insert(value),
{
    let t = s.insert(at, value);
    assert forall|x: T| t.to_set().contains(x) == s.to_set().insert(value).contains(x) by {
        if t.contains(x) {
            let k = choose|k: int| 0 <= k < t.len() && t[k] == x;
            if k < at {
                assert(s[k] == x);
            } else if k > at {
                assert(s[k - 1] == x);
            }
        }
        if s.contains(x) {
            let k = choose|k: int| 0 <= k < s.len() && s[k] == x;
            if k < at {
                assert(t[k] == x);
            } else {
                assert(t[k + 1] == x);
            }
        }
        if x == value {
            assert(t[at] == x);
        }
    }
    assert(t.to_set() =~= s.to_set().insert(value));
}

/// Whether the first text precedes the second.
pub fn precedes(a: &str, b: &str) -> (r: bool)
    ensures
        r == text_precedes(a@, b@),
{
    let a_len = a.unicode_len();
    let b_len = b.unicode_len();
    let mut i: usize = 0;
    assert(a@.skip(0) =~= a@);
    assert(b@.skip(0) =~= b@);
    loop
        invariant
            a_len == a@.len(),
            b_len == b@.len(),
            i <= a_len,
            i <= b_len,
            text_precedes(a@, b@) == text_precedes(a@.skip(i as int), b@.skip(i as int)),
        decreases a_len - i,
    {
        if i == b_len {
            return false;
        }
        if i == a_len {
            return true;
        }
        let x = a.get_char(i);
        let y = b.get_char(i);
        assert(x == a@.skip(i as int)[0]);
        assert(y == b@.skip(i as int)[0]);
        if x != y {
            return x < y;
        }
        assert(a@.skip(i as int).drop_first() =~= a@.skip(i + 1));
        assert(b@.skip(i as int).drop_first() =~= b@.skip(i + 1));
        i = i + 1;
    }
}

/// Adds a text to an ascending list, unless it is there.
pub fn insert_text(list: &mut Vec<String>, value: String)
    requires
        ascending(texts(old(list)@), text_less()),
    ensures
        ascending(texts(final(list)@), text_less()),
        texts(final(list)@).to_set() == texts(old(list)@).to_set().insert(value@),
{
    let ghost before = texts(list@);
    let ghost less = text_less();
    let ghost old_list = list@;
    let mut at: usize = 0;
    while at < list.len() && precedes(list[at].as_str(), value.as_str())
        invariant
            at <= list.len(),
            list@ == old_list,
            before == texts(old_list),
            forall|i: int| 0 <= i < at ==> text_precedes(#[trigger] before[i], value@),
        decreases list.len() - at,
    {
        at = at + 1;
    }
    proof {
        text_order();
    }
    if at < list.len() && list[at] == value {
        assert(before.to_set().insert(value@) =~= before.to_set()) by {
            assert(before[at as int] == value@);
            assert(before.contains(before[at as int]));
        }
        return ;
    }
    assert forall|j: int| at <= j < before.len() implies less(value@, #[trigger] before[j]) by {
        assert(!less(before[at as int], value@));
        assert(before[at as int] != value@);
        assert(less(value@, before[at as int]));
        if j > at {
            assert(less(before[at as int], before[j]));
        }
    }
    let ghost text = value@;
    list.insert(at, value);
    let ghost after = texts(list@);
    assert(after =~= before.insert(at as int, text));
    assert forall|i: int, j: int| 0 <= i < j < after.len() implies less(
        #[trigger] after[i],
        #[trigger] after[j],
    ) by {
        if j < at {
            assert(less(before[i], before[j]));
        } else if i > at {
            assert(less(before[i - 1], before[j - 1]));
        } else if i < at && j > at {
            assert(less(before[i], text) && less(text, before[j - 1]));
        } else if i < at {
            assert(less(before[i], text));
        } else {
            assert(less(text, before[j - 1]));
        }
    }
    proof {
        insert_adds_member(before, at as int, text);
    }
}

/// Texts are ordered by the first character at which they differ, and a text
/// stands before those that it begins.
pub proof fn texts_are_ordered_by_their_first_difference(
    p: Seq<char>,
    x: char,
    a: Seq<char>,
    y: char,
    b: Seq<char>,
)
    ensures
        x != y ==> (text_precedes(p + seq![x] + a, p + seq![y] + b) <==> x < y),
        text_precedes(p, p + a) <==> a.len() > 0,
        !text_precedes(p + a, p),
    decreases p.len(),
{
    let left = p + seq![x] + a;
    let right = p + seq![y] + b;
    if p.len() == 0 {
        assert(left[0] == x);
        assert(right[0] == y);
        assert(p + a =~= a);
    } else {
        let q = p.drop_first();
        texts_are_ordered_by_their_first_difference(q, x, a, y, b);
        assert(left.drop_first() =~= q + seq![x] + a);
        assert(right.drop_first() =~= q + seq![y] + b);
        assert((p + a).drop_first() =~= q + a);
        assert(left[0] == right[0]);
        assert((p + a)[0] == p[0]);
    }
}

/// Numbers are ordered as numbers, and a list ascends if each element stands
/// before all later ones.
pub proof fn numbers_ascend_as_numbers(numbers: Seq<u32>, list: Seq<Seq<char>>, a: u32, b: u32)
    ensures
        number_less()(a, b) <==> a < b,
        ascending(numbers, number_less()) <==> forall|i: int, j: int|
            0 <= i < j < numbers.len() ==> #[trigger] numbers[i] < #[trigger] numbers[j],
        ascending(list, text_less()) <==> forall|i: int, j: int|
            0 <= i < j < list.len() ==> text_precedes(#[trigger] list[i], #[trigger] list[j]),
{
    let less = number_less();
    if ascending(numbers, number_less()) {
        assert forall|i: int, j: int| 0 <= i < j < numbers.len() implies #[trigger] numbers[i]
            < #[trigger] numbers[j] by {
            assert(less(numbers[i], numbers[j]));
        }
    }
    let before = text_less();
    if ascending(list, text_less()) {
        assert forall|i: int, j: int| 0 <= i < j < list.len() implies text_precedes(
            #[trigger] list[i],
            #[trigger] list[j],
        ) by {
            assert(before(list[i], list[j]));
        }
    }
}

} // verus!
