//! What the bridge takes from other crates, with what is relied on of it.
use dashmap::DashMap;
use matrix_sdk::ruma::{RoomId, UInt, UserId};
use matrix_sdk::ruma::identifiers::RoomName;
use vstd::prelude::*;
use vstd::utf8::{encode_utf8, is_ascii_chars};

use crate::text::texts;

verus! {

/// The words that `shell_words` finds in a line; nothing where a quote is left open.
pub uninterp spec fn shell_words_of(line: Seq<char>) -> Option<Seq<Seq<char>>>;

/// The error of `shell_words`: a quote is left open.
#[verifier::external_type_specification]
#[verifier::external_body]
pub struct ExParseError(shell_words::ParseError);

/// Whether a line holds nothing but blanks, tabs and line feeds.
pub open spec fn is_blank(line: Seq<char>) -> bool {
    forall|i: int| 0 <= i < line.len() ==> line[i] == ' ' || line[i] == '\t' || line[i] == '\n'
}

/// `shell_words::split` takes a line apart as a Unix shell does, quotes and backslashes
/// included. Its words are named; a blank line has none.
pub assume_specification[ shell_words::split ](s: &str) -> (r: Result<
    Vec<String>,
    shell_words::ParseError,
>)
    ensures
        match r {
            Ok(words) => shell_words_of(s@) == Some(texts(words@)) && (is_blank(s@) ==> words@.len()
                == 0),
            Err(_) => shell_words_of(s@) is None && !is_blank(s@),
        },
;

/// The lower case of a text, by the tables of Unicode.
pub uninterp spec fn lowercase_of(s: Seq<char>) -> Seq<char>;

/// The lower case of an ASCII character.
pub open spec fn ascii_lower(c: char) -> char {
    if 'A' <= c <= 'Z' {
        (c as u32 + 32) as char
    } else {
        c
    }
}

/// `str::to_lowercase` gives the lower case of a text, as Unicode defines it. It is named; of
/// ASCII text it is the text with each capital letter replaced by its small one. What it gives is
/// in lower case: no ASCII capital letter is left, and the lower case of it is it again. As only
/// case changes, there is no at sign where the text had none.
pub assume_specification[ str::to_lowercase ](s: &str) -> (r: String)
    ensures
        r@ == lowercase_of(s@),
        is_ascii_chars(s@) ==> r@ == s@.map_values(|c: char| ascii_lower(c)),
        forall|i: int| 0 <= i < r@.len() ==> !('A' <= #[trigger] r@[i] <= 'Z'),
        lowercase_of(r@) == r@,
        r@.contains('@') ==> s@.contains('@'),
;

/// Whether a text is a Matrix room identifier.
pub uninterp spec fn is_room_id(raw: Seq<char>) -> bool;

/// `RoomId::try_from` accepts a text exactly where it is a Matrix room identifier. The
/// identifier's text is the text that was given.
#[verifier::external_body]
pub(crate) fn room_id_is_valid(raw: &str) -> (r: bool)
    ensures
        r == is_room_id(raw@),
{
    RoomId::try_from(raw).is_ok()
}

/// The localpart and the server name of a Matrix user identifier; the message of the error
/// where a text is none.
pub uninterp spec fn user_id_parts(raw: Seq<char>) -> Result<(Seq<char>, Seq<char>), Seq<char>>;

/// `UserId::try_from` takes a Matrix user identifier apart: an at sign, the localpart, a
/// colon (the first one), the server name. Which texts are accepted, and the message for
/// the others, are named.
#[verifier::external_body]
pub(crate) fn parse_user_id(raw: &str) -> (r: Result<(String, String), String>)
    ensures
        match r {
            Ok(p) => user_id_parts(raw@) == Ok::<(Seq<char>, Seq<char>), Seq<char>>((p.0@, p.1@)),
            Err(e) => user_id_parts(raw@) == Err::<(Seq<char>, Seq<char>), Seq<char>>(e@),
        },
        r matches Ok(p) ==> raw@ == seq!['@'] + p.0@ + seq![':'] + p.1@ && !p.0@.contains(':'),
{
    match UserId::try_from(raw) {
        Ok(id) => Ok((id.localpart().to_owned(), id.server_name().as_str().to_owned())),
        Err(error) => Err(error.to_string()),
    }
}

/// `<&RoomName>::try_from` accepts a text exactly where it has at least one and at most 255
/// bytes.
#[verifier::external_body]
pub(crate) fn room_name_is_valid(raw: &str) -> (r: bool)
    ensures
        r == (1 <= encode_utf8(raw@).len() <= 255),
{
    <&RoomName>::try_from(raw).is_ok()
}

/// `UInt::try_from` on a `u64` keeps a number below two to the power of 53, and refuses any other.
#[verifier::external_body]
pub(crate) fn uint_of_u64(n: u64) -> (r: Option<u64>)
    ensures
        r == (if n < 0x20_0000_0000_0000 {
            Some(n)
        } else {
            None
        }),
{
    UInt::try_from(n).ok().map(u64::from)
}

/// `UInt::try_from` on an `i32` keeps a number that is not negative, and refuses any other.
#[verifier::external_body]
pub(crate) fn uint_of_i32(n: i32) -> (r: Option<u64>)
    ensures
        r == (if n >= 0 {
            Some(n as u64)
        } else {
            None
        }),
{
    UInt::try_from(n).ok().map(u64::from)
}

/// A concurrent map of the `dashmap` crate.
#[verifier::external_type_specification]
#[verifier::external_body]
#[verifier::reject_recursive_types(K)]
#[verifier::reject_recursive_types(V)]
#[verifier::reject_recursive_types(S)]
pub struct ExDashMap<K, V, S>(DashMap<K, V, S>);

/// What a cache holds: a text for each of some numbers.
pub uninterp spec fn cached(cache: DashMap<u32, String>) -> Map<u32, Seq<char>>;

/// The contents of an empty cache.
pub open spec fn nothing_cached() -> Map<u32, Seq<char>> {
    Map::empty()
}

/// `DashMap::new` makes a map with nothing in it.
#[verifier::external_body]
pub(crate) fn new_cache() -> (r: DashMap<u32, String>)
    ensures
        cached(r) == nothing_cached(),
{
    DashMap::new()
}

/// `DashMap::get` finds the value of a key, if the key is in the map.
#[verifier::external_body]
pub(crate) fn cache_get(cache: &DashMap<u32, String>, key: u32) -> (r: Option<String>)
    ensures
        match r {
            Some(text) => cached(*cache).contains_key(key) && text@ == cached(*cache)[key],
            None => !cached(*cache).contains_key(key),
        },
{
    cache.get(&key).map(|entry| entry.value().clone())
}

/// `DashMap::insert` gives a key its value, in place of any that it had.
#[verifier::external_body]
pub(crate) fn cache_insert(cache: &mut DashMap<u32, String>, key: u32, value: String)
    ensures
        cached(*final(cache)) == cached(*old(cache)).insert(key, value@),
{
    cache.insert(key, value);
}

}
