//! How a session is named on the command line.

use vstd::prelude::*;

verus! {

pub open spec fn is_hex_digit(c: char) -> bool {
    '0' <= c <= '9' || 'a' <= c <= 'f' || 'A' <= c <= 'F'
}

/// Groups of 8, 4, 4, 4 and 12 hexadecimal digits with hyphens between them.
pub open spec fn is_hyphenated_uuid(s: Seq<char>) -> bool {
    &&& s.len() == 36
    &&& forall|i: int|
        0 <= i < 36 ==> if i == 8 || i == 13 || i == 18 || i == 23 {
            s[i] == '-'
        } else {
            is_hex_digit(#[trigger] s[i])
        }
}

/// `s` spells `word`, whose letters are small, in letters of either case.
pub open spec fn spells(s: Seq<char>, word: Seq<char>) -> bool {
    &&& s.len() == word.len()
    &&& forall|i: int|
        0 <= i < s.len() ==> #[trigger] s[i] == word[i] || ('a' <= word[i] <= 'z' && s[i] as int + 32
            == word[i] as int)
}

/// A UUID in one of its spellings: plain digits, hyphenated, hyphenated in
/// braces, or hyphenated behind `urn:uuid:`.
pub open spec fn is_uuid(s: Seq<char>) -> bool {
    ||| s.len() == 32 && forall|i: int| 0 <= i < 32 ==> is_hex_digit(#[trigger] s[i])
    ||| is_hyphenated_uuid(s)
    ||| s.len() == 38 && s[0] == '{' && s[37] == '}' && is_hyphenated_uuid(s.subrange(1, 37))
    ||| s.len() == 45 && spells(s.take(9), "urn:uuid:"@) && is_hyphenated_uuid(s.subrange(9, 45))
}

/// `uuid::Uuid::parse_str`: it succeeds exactly on the spellings of [`is_uuid`].
#[verifier::external_body]
fn parses_as_uuid(text: &str) -> (parses: bool)
    ensures
        parses == is_uuid(text@),
{
    uuid::Uuid::parse_str(text).is_ok()
}

/// Whether the text given for a session is an id. Otherwise it is a name.
pub fn is_session_id(text: &str) -> (id: bool)
    ensures
        id == is_uuid(text@),
{
    parses_as_uuid(text)
}

/// An id is one in all its spellings: hyphenated, in braces, and behind `urn:uuid:`.
pub proof fn law_every_spelling_is_an_id(id: Seq<char>)
    requires
        is_hyphenated_uuid(id),
    ensures
        is_uuid(id),
        is_uuid(seq!['{'] + id + seq!['}']),
        is_uuid("urn:uuid:"@ + id),
{
    reveal_strlit("urn:uuid:");
    let braced = seq!['{'] + id + seq!['}'];
    assert(braced.subrange(1, 37) =~= id);
    let urn = "urn:uuid:"@ + id;
    assert(urn.take(9) =~= "urn:uuid:"@);
    assert(urn.subrange(9, 45) =~= id);
}

/// What a call of [`is_session_id`] gives, by the length of the text: a plain run of
/// digits, a hyphenated id, one in braces, or one behind `urn:uuid:` is an id, and
/// nothing else is.
pub proof fn law_id_has_the_length_of_a_spelling(text: &str, id: bool)
    requires
        call_ensures(is_session_id, (text,), id),
    ensures
        id ==> text@.len() == 32 || text@.len() == 36 || text@.len() == 38 || text@.len() == 45,
        text@.len() == 32 ==> (id <==> forall|i: int|
            0 <= i < 32 ==> ('0' <= #[trigger] text@[i] <= '9' || 'a' <= text@[i] <= 'f' || 'A'
                <= text@[i] <= 'F')),
        text@.len() == 36 ==> (id <==> is_hyphenated_uuid(text@)),
        text@.len() == 38 ==> (id <==> text@[0] == '{' && text@[37] == '}' && is_hyphenated_uuid(
            text@.subrange(1, 37),
        )),
        text@.len() == 45 ==> (id <==> spells(text@.take(9), "urn:uuid:"@) && is_hyphenated_uuid(
            text@.subrange(9, 45),
        )),
{
    if text@.len() == 32 && id {
        assert forall|i: int| 0 <= i < 32 implies ('0' <= #[trigger] text@[i] <= '9' || 'a'
            <= text@[i] <= 'f' || 'A' <= text@[i] <= 'F') by {
            assert(is_hex_digit(text@[i]));
        }
    }
}

} // verus!
