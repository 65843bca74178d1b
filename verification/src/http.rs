//! The boundary to the HTTP types of the transport: request methods, the rules
//! for header names and values, and the header map that a request carries.

use crate::headers::Headers;
use reqwest::header::{HeaderMap, HeaderName, HeaderValue};
use std::str::FromStr;
use vstd::prelude::*;

verus! {

/// The HTTP request methods.
#[derive(Clone, Copy, Debug, PartialEq, Eq, Structural)]
pub enum Method {
    Get,
    Head,
    Post,
    Put,
    Patch,
    Delete,
    Options,
    Trace,
    Connect,
}

/// Which half of a header was turned down.
#[derive(Clone, Copy, Debug, PartialEq, Eq, Structural)]
pub enum HeaderRejection {
    Name,
    Value,
}

/// A header as a pair of texts: the name as written, then the value.
pub type HeaderText = (Seq<char>, Seq<char>);

/// The longest header name, in characters.
pub const MAX_HEADER_NAME_LEN: usize = 65535;

/// A header map takes one more name without fail while it holds fewer names
/// than this. A map that cannot grow any further does not take it: it stops
/// the program.
pub const HEADER_MAP_ROOM: usize = 4096;

/// The punctuation that may stand in a header name besides letters and digits.
pub open spec fn is_name_punctuation(c: char) -> bool {
    c == '!' || c == '"' || c == '#' || c == '$' || c == '%' || c == '&' || c == '\'' || c == '*'
        || c == '+' || c == '-' || c == '.' || c == '^' || c == '_' || c == '`' || c == '|' || c
        == '~'
}

/// The characters that may stand in a header name.
pub open spec fn is_name_char(c: char) -> bool {
    ('a' <= c && c <= 'z') || ('A' <= c && c <= 'Z') || ('0' <= c && c <= '9')
        || is_name_punctuation(c)
}

/// An ASCII capital letter becomes its small letter; every other character stays.
pub open spec fn lower(c: char) -> char {
    if 'A' <= c && c <= 'Z' {
        ((c as u32) + 32) as char
    } else {
        c
    }
}

/// The form under which a header map files a name: the name in small letters,
/// or nothing where the name is empty, too long or holds a character that no
/// header name may hold.
pub open spec fn canonical_name(name: Seq<char>) -> Option<Seq<char>> {
    if 1 <= name.len() <= MAX_HEADER_NAME_LEN && (forall|i: int|
        0 <= i < name.len() ==> is_name_char(#[trigger] name[i])) {
        Some(Seq::new(name.len(), |i: int| lower(name[i])))
    } else {
        None
    }
}

/// The characters that may stand in a header value: the tab and everything
/// from the space upwards but the delete character.
pub open spec fn is_value_char(c: char) -> bool {
    c == '\t' || (' ' <= c && c != '\x7f')
}

/// Whether a text can be a header value.
pub open spec fn value_accepted(value: Seq<char>) -> bool {
    forall|i: int| 0 <= i < value.len() ==> is_value_char(#[trigger] value[i])
}

/// What is wrong with one header, if anything: the name is looked at first.
pub open spec fn rejection_of(header: HeaderText) -> Option<HeaderRejection> {
    if canonical_name(header.0) is None {
        Some(HeaderRejection::Name)
    } else if !value_accepted(header.1) {
        Some(HeaderRejection::Value)
    } else {
        None
    }
}

/// What is wrong with the first header of `list` that cannot be sent, or
/// nothing where all of them can.
pub open spec fn first_rejection(list: Seq<HeaderText>) -> Option<HeaderRejection>
    decreases list.len(),
{
    if list.len() == 0 {
        None
    } else {
        match first_rejection(list.drop_last()) {
            Some(rejection) => Some(rejection),
            None => rejection_of(list.last()),
        }
    }
}

/// The entries of a header map that held `base` and was then given the
/// headers of `list` one after the other: under each canonical name stands
/// the value that was given last.
pub open spec fn filed(base: Map<Seq<char>, Seq<char>>, list: Seq<HeaderText>) -> Map<
    Seq<char>,
    Seq<char>,
>
    decreases list.len(),
{
    if list.len() == 0 {
        base
    } else {
        filed(base, list.drop_last()).insert(canonical_name(list.last().0).unwrap(), list.last().1)
    }
}

/// The first header that cannot be sent is found in the first list, or else
/// in the second.
pub proof fn lemma_first_rejection_concat(first: Seq<HeaderText>, second: Seq<HeaderText>)
    ensures
        first_rejection(first + second) == match first_rejection(first) {
            Some(rejection) => Some(rejection),
            None => first_rejection(second),
        },
    decreases second.len(),
{
    if second.len() == 0 {
        assert(first + second =~= first);
    } else {
        assert((first + second).drop_last() =~= first + second.drop_last());
        lemma_first_rejection_concat(first, second.drop_last());
    }
}

/// Filing two lists one after the other is filing their concatenation.
pub proof fn lemma_filed_concat(
    base: Map<Seq<char>, Seq<char>>,
    first: Seq<HeaderText>,
    second: Seq<HeaderText>,
)
    ensures
        filed(base, first + second) == filed(filed(base, first), second),
    decreases second.len(),
{
    if second.len() == 0 {
        assert(first + second =~= first);
    } else {
        assert((first + second).drop_last() =~= first + second.drop_last());
        lemma_filed_concat(base, first, second.drop_last());
    }
}

/// Filing a list adds at most one name for each of its headers.
pub proof fn lemma_filed_size(base: Map<Seq<char>, Seq<char>>, list: Seq<HeaderText>)
    requires
        base.dom().finite(),
    ensures
        filed(base, list).dom().finite(),
        filed(base, list).dom().len() <= base.dom().len() + list.len(),
    decreases list.len(),
{
    if list.len() > 0 {
        lemma_filed_size(base, list.drop_last());
    }
}

#[verifier::external_type_specification]
#[verifier::external_body]
pub struct ExHeaderValue(HeaderValue);

#[verifier::external_type_specification]
#[verifier::external_body]
#[verifier::reject_recursive_types(T)]
pub struct ExHeaderMap<T>(HeaderMap<T>);

/// What a header map holds: for each name in it, in canonical form, the text
/// of the value that a lookup of that name gives.
pub uninterp spec fn header_entries(map: HeaderMap<HeaderValue>) -> Map<Seq<char>, Seq<char>>;

/// `HeaderMap::new`: a map that holds nothing.
#[verifier::external_body]
pub(crate) fn empty_header_map() -> (map: HeaderMap<HeaderValue>)
    ensures
        header_entries(map) =~= Map::empty(),
{
    HeaderMap::new()
}

/// Files one header: `HeaderName::from_str`, then `HeaderValue::from_str`,
/// then `HeaderMap::insert`.
///
/// The name is taken if it has 1 to 65535 characters that are all letters,
/// digits or name punctuation, and is filed in small letters. The value is
/// taken unless it holds a control character other than the tab. If both are
/// taken, the value stands under the name in place of any value that stood
/// there, and nothing else changes; otherwise the map stays as it was and the
/// result says which of the two was turned down, the name first. The call is
/// made only while the map holds fewer names than it is sure to have room
/// for.
#[verifier::external_body]
pub(crate) fn file_header(map: &mut HeaderMap<HeaderValue>, name: &str, value: &str) -> (rejection:
    Option<HeaderRejection>)
    requires
        header_entries(*old(map)).dom().finite(),
        header_entries(*old(map)).dom().len() < HEADER_MAP_ROOM,
    ensures
        rejection == rejection_of((name@, value@)),
        header_entries(*final(map)) == if rejection is None {
            header_entries(*old(map)).insert(canonical_name(name@).unwrap(), value@)
        } else {
            header_entries(*old(map))
        },
{
    let Ok(name) = HeaderName::from_str(name) else {
        return Some(HeaderRejection::Name);
    };
    let Ok(value) = HeaderValue::from_str(value) else {
        return Some(HeaderRejection::Value);
    };
    map.insert(name, value);
    None
}

/// Where no header of a list is turned down, each of them has a canonical
/// name and a value that can be sent.
pub proof fn lemma_all_accepted(list: Seq<HeaderText>)
    requires
        first_rejection(list) is None,
    ensures
        forall|i: int| 0 <= i < list.len() ==> rejection_of(#[trigger] list[i]) is None,
    decreases list.len(),
{
    if list.len() > 0 {
        lemma_all_accepted(list.drop_last());
        assert forall|i: int| 0 <= i < list.len() implies rejection_of(#[trigger] list[i]) is None by {
            if i < list.len() - 1 {
                assert(list[i] == list.drop_last()[i]);
            }
        }
    }
}

/// A name under which no header of the list is filed stands after the filing
/// as it stood before.
pub proof fn lemma_filed_elsewhere(
    base: Map<Seq<char>, Seq<char>>,
    list: Seq<HeaderText>,
    name: Seq<char>,
)
    requires
        forall|i: int| 0 <= i < list.len() ==> canonical_name((#[trigger] list[i]).0) is Some,
        forall|i: int| 0 <= i < list.len() ==> canonical_name((#[trigger] list[i]).0) != Some(name),
    ensures
        filed(base, list).contains_key(name) == base.contains_key(name),
        base.contains_key(name) ==> filed(base, list)[name] == base[name],
    decreases list.len(),
{
    if list.len() > 0 {
        let front = list.drop_last();
        assert forall|i: int| 0 <= i < front.len() implies canonical_name((#[trigger] front[i]).0)
            is Some && canonical_name(front[i].0) != Some(name) by {
            assert(front[i] == list[i]);
        }
        lemma_filed_elsewhere(base, front, name);
        assert(canonical_name(list[list.len() - 1].0) is Some);
    }
}

/// Under a canonical name stands the value of the last header that is filed
/// under it.
pub proof fn lemma_filed_last(base: Map<Seq<char>, Seq<char>>, list: Seq<HeaderText>, j: int)
    requires
        0 <= j < list.len(),
        forall|i: int| 0 <= i < list.len() ==> canonical_name((#[trigger] list[i]).0) is Some,
        forall|k: int|
            j < k < list.len() ==> canonical_name((#[trigger] list[k]).0) != canonical_name(
                list[j].0,
            ),
    ensures
        filed(base, list).contains_key(canonical_name(list[j].0).unwrap()),
        filed(base, list)[canonical_name(list[j].0).unwrap()] == list[j].1,
    decreases list.len(),
{
    if j < list.len() - 1 {
        let front = list.drop_last();
        assert(front[j] == list[j]);
        assert forall|i: int| 0 <= i < front.len() implies canonical_name((#[trigger] front[i]).0)
            is Some by {
            assert(front[i] == list[i]);
        }
        assert forall|k: int| j < k < front.len() implies canonical_name((#[trigger] front[k]).0)
            != canonical_name(front[j].0) by {
            assert(front[k] == list[k]);
        }
        lemma_filed_last(base, front, j);
        assert(canonical_name(list[list.len() - 1].0) is Some);
        assert(canonical_name(list[list.len() - 1].0) != canonical_name(list[j].0));
    }
}

/// Of two lists of headers that are filed one after the other, the second
/// prevails: a canonical name that both hold gets the value that the second
/// list gives it. It has the value of the first list only where the two
/// agree.
pub proof fn law_later_list_prevails(
    first: Seq<HeaderText>,
    second: Seq<HeaderText>,
    i: int,
    j: int,
)
    requires
        first_rejection(first + second) is None,
        0 <= i < first.len(),
        0 <= j < second.len(),
        canonical_name(first[i].0) == canonical_name(second[j].0),
        forall|k: int|
            j < k < second.len() ==> canonical_name((#[trigger] second[k]).0) != canonical_name(
                second[j].0,
            ),
    ensures
        filed(Map::empty(), first + second).contains_key(canonical_name(second[j].0).unwrap()),
        filed(Map::empty(), first + second)[canonical_name(second[j].0).unwrap()] == second[j].1,
        filed(Map::empty(), first + second)[canonical_name(first[i].0).unwrap()] == first[i].1
            <==> first[i].1 == second[j].1,
{
    let all = first + second;
    lemma_all_accepted(all);
    assert forall|k: int| 0 <= k < all.len() implies canonical_name((#[trigger] all[k]).0)
        is Some by {
        assert(rejection_of(all[k]) is None);
    }
    assert(all[first.len() + j] == second[j]);
    assert forall|k: int| first.len() + j < k < all.len() implies canonical_name(
        (#[trigger] all[k]).0,
    ) != canonical_name(all[first.len() + j].0) by {
        assert(all[k] == second[k - first.len()]);
    }
    lemma_filed_last(Map::empty(), all, first.len() + j);
}

/// A header of the first list keeps its value where the second list holds
/// nothing of its canonical name.
pub proof fn law_earlier_list_fills_in(first: Seq<HeaderText>, second: Seq<HeaderText>, i: int)
    requires
        first_rejection(first + second) is None,
        0 <= i < first.len(),
        forall|k: int|
            i < k < first.len() ==> canonical_name((#[trigger] first[k]).0) != canonical_name(
                first[i].0,
            ),
        forall|k: int|
            0 <= k < second.len() ==> canonical_name((#[trigger] second[k]).0) != canonical_name(
                first[i].0,
            ),
    ensures
        filed(Map::empty(), first + second).contains_key(canonical_name(first[i].0).unwrap()),
        filed(Map::empty(), first + second)[canonical_name(first[i].0).unwrap()] == first[i].1,
{
    let all = first + second;
    lemma_all_accepted(all);
    assert forall|k: int| 0 <= k < all.len() implies canonical_name((#[trigger] all[k]).0)
        is Some by {
        assert(rejection_of(all[k]) is None);
    }
    assert(all[i] == first[i]);
    assert forall|k: int| i < k < all.len() implies canonical_name((#[trigger] all[k]).0)
        != canonical_name(all[i].0) by {
        if k < first.len() {
            assert(all[k] == first[k]);
        } else {
            assert(all[k] == second[k - first.len()]);
        }
    }
    lemma_filed_last(Map::empty(), all, i);
}

/// Files the headers of `list` in `map`, one after the other, up to the first
/// that cannot be sent; says what is wrong with that one.
pub(crate) fn insert_all(map: &mut HeaderMap<HeaderValue>, list: &Headers) -> (rejection: Option<
    HeaderRejection,
>)
    requires
        header_entries(*old(map)).dom().finite(),
        header_entries(*old(map)).dom().len() + list@.len() <= HEADER_MAP_ROOM,
    ensures
        rejection == first_rejection(list@),
        rejection is None ==> header_entries(*final(map)) == filed(
            header_entries(*old(map)),
            list@,
        ),
{
    let mut i: usize = 0;
    while i < list.len()
        invariant
            i <= list@.len(),
            header_entries(*old(map)).dom().finite(),
            header_entries(*old(map)).dom().len() + list@.len() <= HEADER_MAP_ROOM,
            first_rejection(list@.take(i as int)) is None,
            header_entries(*map) == filed(header_entries(*old(map)), list@.take(i as int)),
        decreases list@.len() - i,
    {
        let name = list.name_at(i);
        let value = list.value_at(i);
        proof {
            assert(list@.take(i + 1).drop_last() =~= list@.take(i as int));
            assert(list@.take(i + 1).last() == list@[i as int]);
            lemma_filed_size(header_entries(*old(map)), list@.take(i as int));
            lemma_first_rejection_concat(list@.take(i + 1), list@.skip(i + 1));
            assert(list@.take(i + 1) + list@.skip(i + 1) =~= list@);
        }
        let rejection = file_header(map, name, value);
        if rejection.is_some() {
            return rejection;
        }
        i += 1;
    }
    assert(list@.take(list@.len() as int) =~= list@);
    None
}

} // verus!
