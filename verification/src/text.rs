//! Small verified helpers over text.

use vstd::prelude::*;

verus! {

/// Whether `text` begins with `prefix`.
pub fn starts_with(text: &str, prefix: &str) -> (r: bool)
    ensures
        r == prefix@.is_prefix_of(text@),
{
    let n: usize = prefix.unicode_len();
    if text.unicode_len() < n {
        false
    } else {
        text.substring_char(0, n).to_owned() == prefix.to_owned()
    }
}

/// Whether two texts hold the same characters.
pub fn same_text(a: &str, b: &str) -> (r: bool)
    ensures
        r == (a@ == b@),
{
    a.to_owned() == b.to_owned()
}

/// The first `n` characters of a text, or all of it where it is shorter.
pub open spec fn first_chars(text: Seq<char>, n: nat) -> Seq<char> {
    if text.len() < n {
        text
    } else {
        text.subrange(0, n as int)
    }
}

/// The last `n` characters of a text, or all of it where it is shorter.
pub open spec fn last_chars(text: Seq<char>, n: nat) -> Seq<char> {
    if text.len() < n {
        text
    } else {
        text.subrange(text.len() - n, text.len() as int)
    }
}

/// Computes [`first_chars`].
pub fn take_first(text: &str, n: usize) -> (r: String)
    ensures
        r@ == first_chars(text@, n as nat),
{
    let len: usize = text.unicode_len();
    if len < n {
        text.to_owned()
    } else {
        text.substring_char(0, n).to_owned()
    }
}

/// Computes [`last_chars`].
pub fn take_last(text: &str, n: usize) -> (r: String)
    ensures
        r@ == last_chars(text@, n as nat),
{
    let len: usize = text.unicode_len();
    if len < n {
        text.to_owned()
    } else {
        text.substring_char(len - n, len).to_owned()
    }
}

/// The value an optional text stands for where its absence means the empty text.
pub open spec fn text_or_empty(text: Option<String>) -> Seq<char> {
    match text {
        Some(t) => t@,
        None => Seq::empty(),
    }
}

/// Computes [`text_or_empty`].
pub fn unwrap_or_empty(text: Option<String>) -> (r: String)
    ensures
        r@ == text_or_empty(text),
{
    match text {
        Some(t) => t,
        None => String::new(),
    }
}

/// The first of two optional values that is present.
pub open spec fn first_present<T>(a: Option<T>, b: Option<T>) -> Option<T> {
    if a is Some {
        a
    } else {
        b
    }
}

/// Computes [`first_present`].
pub fn or_else<T>(a: Option<T>, b: Option<T>) -> (r: Option<T>)
    ensures
        r == first_present(a, b),
{
    match a {
        Some(v) => Some(v),
        None => b,
    }
}

/// The value of an option, with a fallback for its absence.
pub open spec fn present_or<T>(a: Option<T>, fallback: T) -> T {
    match a {
        Some(v) => v,
        None => fallback,
    }
}

/// Computes [`present_or`].
pub fn value_or<T>(a: Option<T>, fallback: T) -> (r: T)
    ensures
        r == present_or(a, fallback),
{
    match a {
        Some(v) => v,
        None => fallback,
    }
}

/// What begins a text of at least `n` characters and what ends it have `n` of
/// them; a shorter text is its own beginning and end.
pub proof fn parts_of_a_text(text: &str, n: usize, start: String, end: String)
    requires
        call_ensures(take_first, (text, n), start),
        call_ensures(take_last, (text, n), end),
    ensures
        start@.is_prefix_of(text@),
        end@.is_suffix_of(text@),
        text@.len() >= n ==> start@.len() == n && end@.len() == n,
        text@.len() < n ==> start@ == text@ && end@ == text@,
{
    assert(text@.subrange(0, text@.len() as int) =~= text@);
}

/// A text begins with another exactly where that one and some rest make it up,
/// and two texts are the same exactly where their characters are.
pub proof fn texts_are_compared_by_their_characters(
    text: &str,
    other: &str,
    begins: bool,
    is_same: bool,
)
    requires
        call_ensures(starts_with, (text, other), begins),
        call_ensures(same_text, (text, other), is_same),
    ensures
        begins <==> exists|rest: Seq<char>| text@ == #[trigger] (other@ + rest),
        is_same <==> text@.len() == other@.len() && (forall|i: int|
            0 <= i < text@.len() ==> text@[i] == other@[i]),
        is_same ==> begins,
{
    if begins {
        assert(text@ =~= other@ + text@.skip(other@.len() as int));
    }
    if exists|rest: Seq<char>| text@ == #[trigger] (other@ + rest) {
        let rest = choose|rest: Seq<char>| text@ == #[trigger] (other@ + rest);
        assert((other@ + rest).subrange(0, other@.len() as int) =~= other@);
    }
    if text@.len() == other@.len() && (forall|i: int|
        0 <= i < text@.len() ==> text@[i] == other@[i]) {
        assert(text@ =~= other@);
    }
    if is_same {
        assert(text@ =~= other@ + Seq::<char>::empty());
    }
}

/// A value that is there is taken, and what stands in for it only where it is
/// not.
pub proof fn fallbacks_stand_in<T>(
    value: Option<T>,
    other: Option<T>,
    fallback: T,
    text: Option<String>,
    first: Option<T>,
    taken: T,
    written: String,
)
    requires
        call_ensures(or_else, (value, other), first),
        call_ensures(value_or, (value, fallback), taken),
        call_ensures(unwrap_or_empty, (text,), written),
    ensures
        value is Some ==> first == value && taken == value->0,
        value is None ==> first == other && taken == fallback,
        text is Some ==> written@ == text->0@,
        text is None ==> written@.len() == 0,
{
}

} // verus!
