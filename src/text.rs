//! Codepoint-level models of a string split around a cursor position.

use vstd::prelude::*;

verus! {

/// The characters before `pos`: the whole text when `pos` is at or past its
/// end, and nothing at all for an empty text.
pub open spec fn pre_spec(s: Seq<char>, pos: int) -> Option<Seq<char>> {
    if pos < s.len() {
        Some(s.take(pos))
    } else if s.len() == 0 {
        None
    } else {
        Some(s)
    }
}

/// The character under the cursor, as a one-character sequence, if the
/// cursor is on one.
pub open spec fn on_spec(s: Seq<char>, pos: int) -> Option<Seq<char>> {
    if 0 <= pos < s.len() {
        Some(s.subrange(pos, pos + 1))
    } else {
        None
    }
}

/// The characters strictly after `pos`, if there are any.
pub open spec fn post_spec(s: Seq<char>, pos: int) -> Option<Seq<char>> {
    if pos + 1 < s.len() {
        Some(s.skip(pos + 1))
    } else {
        None
    }
}

/// An absent part of a split read as the empty sequence.
pub open spec fn or_empty(o: Option<Seq<char>>) -> Seq<char> {
    match o {
        Some(t) => t,
        None => Seq::empty(),
    }
}

/// The text of an optional string.
pub open spec fn opt_view(o: Option<String>) -> Option<Seq<char>> {
    match o {
        Some(t) => Some(t@),
        None => None,
    }
}

/// The text after typing `new` at `cursor`: inserted before the character
/// under the cursor, or written over it.
pub open spec fn typed_spec(s: Seq<char>, cursor: int, new: Seq<char>, insert_mode: bool) -> Seq<char> {
    if insert_mode {
        s.take(cursor) + new + s.skip(cursor)
    } else if cursor < s.len() {
        s.take(cursor) + new + s.skip(cursor + 1)
    } else {
        s + new
    }
}

/// The text with the character at `pos` removed, when there is one.
pub open spec fn deleted_spec(s: Seq<char>, pos: int) -> Seq<char> {
    if 0 <= pos < s.len() {
        s.remove(pos)
    } else {
        s
    }
}

/// Whether the allow-list `accept` lets `s` be typed: an empty list
/// accepts everything, otherwise every character must be on it.
pub open spec fn accepts_spec(accept: Seq<char>, s: Seq<char>) -> bool {
    accept.len() == 0 || forall|i: int| 0 <= i < s.len() ==> accept.contains(#[trigger] s[i])
}

/// Compares two strings character by character.
pub fn str_eq(a: &str, b: &str) -> (r: bool)
    ensures
        r == (a@ == b@),
{
    let n = a.unicode_len();
    if n != b.unicode_len() {
        return false;
    }
    let mut i: usize = 0;
    while i < n
        invariant
            n == a@.len(),
            n == b@.len(),
            i <= n,
            forall|j: int| 0 <= j < i ==> a@[j] == b@[j],
        decreases n - i,
    {
        if a.get_char(i) != b.get_char(i) {
            return false;
        }
        i = i + 1;
    }
    assert(a@ =~= b@);
    true
}

/// The optional string's text, or the empty string.
pub fn unwrap_or_empty(o: Option<String>) -> (r: String)
    ensures
        r@ == or_empty(opt_view(o)),
{
    match o {
        Some(t) => t,
        None => String::new(),
    }
}

/// Whether `c` is one of the characters of `s`.
pub fn contains_char(s: &str, c: char) -> (r: bool)
    ensures
        r == s@.contains(c),
{
    let n = s.unicode_len();
    let mut i: usize = 0;
    while i < n
        invariant
            n == s@.len(),
            i <= n,
            forall|j: int| 0 <= j < i ==> s@[j] != c,
        decreases n - i,
    {
        if s.get_char(i) == c {
            assert(s@[i as int] == c);
            return true;
        }
        i = i + 1;
    }
    false
}

/// Whether the allow-list `accept` lets `s` be typed.
pub fn accepts(accept: &str, s: &str) -> (r: bool)
    ensures
        r == accepts_spec(accept@, s@),
{
    if accept.unicode_len() == 0 {
        return true;
    }
    let n = s.unicode_len();
    let mut i: usize = 0;
    while i < n
        invariant
            n == s@.len(),
            i <= n,
            accept@.len() > 0,
            forall|j: int| 0 <= j < i ==> accept@.contains(#[trigger] s@[j]),
        decreases n - i,
    {
        if !contains_char(accept, s.get_char(i)) {
            return false;
        }
        i = i + 1;
    }
    true
}

/// A character as it stands in markup text: `<` and `&` are written as
/// entities, any other character as itself.
pub open spec fn escape_char(c: char) -> Seq<char> {
    if c == '<' {
        "&lt;"@
    } else if c == '&' {
        "&amp;"@
    } else {
        seq![c]
    }
}

/// A text as it stands in markup.
pub open spec fn escape_spec(s: Seq<char>) -> Seq<char>
    decreases s.len(),
{
    if s.len() == 0 {
        Seq::empty()
    } else {
        escape_spec(s.drop_last()) + escape_char(s.last())
    }
}

/// Writes `s` as markup text.
pub fn escape_markup(s: &str) -> (r: String)
    ensures
        r@ == escape_spec(s@),
{
    let n = s.unicode_len();
    let mut out = String::new();
    let mut i: usize = 0;
    while i < n
        invariant
            n == s@.len(),
            i <= n,
            out@ == escape_spec(s@.take(i as int)),
        decreases n - i,
    {
        let c = s.get_char(i);
        if c == '<' {
            out.append("&lt;");
        } else if c == '&' {
            out.append("&amp;");
        } else {
            out.append(s.substring_char(i, i + 1));
        }
        proof {
            assert(s@.take(i + 1).drop_last() =~= s@.take(i as int));
            assert(s@.subrange(i as int, i + 1) =~= seq![c]);
        }
        i = i + 1;
    }
    assert(s@.take(n as int) =~= s@);
    out
}

/// The text of a string slice as an owned string.
pub fn owned(s: &str) -> (r: String)
    ensures
        r@ == s@,
{
    s.to_string()
}

} // verus!
