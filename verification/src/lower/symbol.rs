//! Symbol names of called intrinsics.

use crate::text::{decimal, decimal_reads_back, is_digit};
use vstd::prelude::*;

verus! {

/// Whether a character may start an identifier.
pub open spec fn starts_identifier(c: char) -> bool {
    ||| 'a' <= c && c <= 'z'
    ||| 'A' <= c && c <= 'Z'
    ||| c == '_'
}

/// Whether a character may stand inside an identifier.
pub open spec fn continues_identifier(c: char) -> bool {
    starts_identifier(c) || is_digit(c)
}

/// Whether a text is an identifier: a letter or an underscore, then letters,
/// underscores and digits, all of them ASCII.
pub open spec fn is_identifier(text: Seq<char>) -> bool {
    &&& text.len() > 0
    &&& starts_identifier(text[0])
    &&& forall|i: int| 0 <= i < text.len() ==> continues_identifier(#[trigger] text[i])
}

/// Turns a name into the text of an IR identifier by
/// `pliron::identifier::Identifier::try_from(String)`.
///
/// Trusted: the conversion succeeds exactly on the texts of the form
/// `[a-zA-Z_][a-zA-Z0-9_]*`, and the identifier displays as the text that it
/// was made from.
#[verifier::external_body]
pub(crate) fn identifier(name: String) -> (r: Option<String>)
    ensures
        r is Some <==> is_identifier(name@),
        r matches Some(text) ==> text@ == name@,
{
    match pliron::identifier::Identifier::try_from(name) {
        Ok(identifier) => Some(identifier.to_string()),
        Err(_) => None,
    }
}

/// Appending a decimal number or further identifier characters to an
/// identifier gives an identifier.
pub proof fn identifier_extends(head: Seq<char>, n: nat, tail: Seq<char>)
    requires
        is_identifier(head),
        forall|i: int| 0 <= i < tail.len() ==> continues_identifier(#[trigger] tail[i]),
    ensures
        is_identifier(head + decimal(n) + tail),
{
    decimal_reads_back(n);
    let text = head + decimal(n) + tail;
    assert forall|i: int| 0 <= i < text.len() implies continues_identifier(#[trigger] text[i]) by {
        if i < head.len() {
            assert(text[i] == head[i]);
        } else if i < head.len() + decimal(n).len() {
            assert(text[i] == decimal(n)[i - head.len()]);
        } else {
            assert(text[i] == tail[i - head.len() - decimal(n).len()]);
        }
    }
}

} // verus!
