//! Identifiers that are made up here.

use vstd::prelude::*;

use crate::outside::random_text;

verus! {

/// The characters that the random part of an identifier is made of.
pub const ALPHABETS: [char; 62] = [
    '0', '1', '2', '3', '4', '5', '6', '7', '8', '9', 'a', 'b', 'c', 'd', 'e', 'f', 'g', 'h', 'i',
    'j', 'k', 'l', 'm', 'n', 'o', 'p', 'q', 'r', 's', 't', 'u', 'v', 'w', 'x', 'y', 'z', 'A', 'B',
    'C', 'D', 'E', 'F', 'G', 'H', 'I', 'J', 'K', 'L', 'M', 'N', 'O', 'P', 'Q', 'R', 'S', 'T', 'U',
    'V', 'W', 'X', 'Y', 'Z',
];

/// The length of the random part of an identifier.
pub const ID_LENGTH: usize = 20;

/// Whether a text is made of letters and digits alone.
pub open spec fn alphanumeric(text: Seq<char>) -> bool {
    forall|i: int|
        0 <= i < text.len() ==> {
            ||| '0' <= #[trigger] text[i] <= '9'
            ||| 'a' <= text[i] <= 'z'
            ||| 'A' <= text[i] <= 'Z'
        }
}

/// Whether `id` is an identifier made up for `prefix`: the prefix, an
/// underscore, and `length` letters and digits.
pub open spec fn is_generated_id(id: Seq<char>, prefix: Seq<char>, length: nat) -> bool {
    &&& id.len() == prefix.len() + 1 + length
    &&& id.subrange(0, prefix.len() as int) == prefix
    &&& id[prefix.len() as int] == '_'
    &&& alphanumeric(id.subrange(prefix.len() as int + 1, id.len() as int))
}

/// An identifier from its prefix and its random part.
pub fn id_from_parts(prefix: &str, random_part: &str) -> (r: String)
    ensures
        r@ == prefix@ + "_"@ + random_part@,
{
    let mut id = prefix.to_owned();
    id.append("_");
    id.append(random_part);
    id
}

/// Makes up an identifier. Which one is left to chance.
pub fn generate_id(length: usize, prefix: &str) -> (r: String)
    requires
        0 < length <= usize::MAX / 8,
    ensures
        is_generated_id(r@, prefix@, length as nat),
{
    let alphabet = ALPHABETS;
    assert(forall|i: int| 0 <= i < 62 ==> (#[trigger] alphabet@[i] as int) < 128);
    let random_part = random_text(&alphabet, length);
    let id = id_from_parts(prefix, random_part.as_str());
    proof {
        reveal_strlit("_");
        assert(id@.subrange(0, prefix@.len() as int) =~= prefix@);
        assert(id@.subrange(prefix@.len() as int + 1, id@.len() as int) =~= random_part@);
    }
    id
}

/// What an identifier is made of: its prefix, one underscore and a random part
/// of the length that was asked for.
pub proof fn identifiers_show_their_prefix(
    length: usize,
    prefix: &str,
    id: String,
    i: int,
)
    requires
        0 < length <= usize::MAX / 8,
        call_ensures(generate_id, (length, prefix), id),
        0 <= i < id@.len(),
    ensures
        id@.len() == prefix@.len() + 1 + length,
        i < prefix@.len() ==> id@[i] == prefix@[i],
        i == prefix@.len() ==> id@[i] == '_',
        i > prefix@.len() ==> '0' <= id@[i] <= '9' || 'a' <= id@[i] <= 'z' || 'A' <= id@[i] <= 'Z',
{
    let n = prefix@.len() as int;
    if i < n {
        assert(id@.subrange(0, n)[i] == prefix@[i]);
    } else if i > n {
        assert(id@.subrange(n + 1, id@.len() as int)[i - n - 1] == id@[i]);
    }
}

/// An identifier that is put together shows its prefix and its random part.
pub proof fn parts_make_an_identifier(prefix: &str, random_part: &str, id: String)
    requires
        call_ensures(id_from_parts, (prefix, random_part), id),
    ensures
        id@.len() == prefix@.len() + 1 + random_part@.len(),
        id@.take(prefix@.len() as int) == prefix@,
        id@[prefix@.len() as int] == '_',
        id@.skip(prefix@.len() as int + 1) == random_part@,
        ID_LENGTH == 20,
{
    reveal_strlit("_");
    assert(id@.take(prefix@.len() as int) =~= prefix@);
    assert(id@.skip(prefix@.len() as int + 1) =~= random_part@);
}

/// The alphabet holds each digit, each small letter and each capital once, in
/// this order.
pub proof fn the_alphabet_is_complete(i: int)
    requires
        0 <= i < 62,
    ensures
        i < 10 ==> ALPHABETS@[i] as int == '0' as int + i,
        10 <= i < 36 ==> ALPHABETS@[i] as int == 'a' as int + (i - 10),
        36 <= i ==> ALPHABETS@[i] as int == 'A' as int + (i - 36),
{
}

} // verus!
