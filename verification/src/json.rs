//! The members of a JSON object, as far as claims need them: texts, whole
//! numbers and lists of texts. Reading and writing is `serde_json`'s.

use vstd::prelude::*;

verus! {

/// `serde_json::Value`, of which nothing is seen but through the functions
/// below.
#[verifier::external_type_specification]
#[verifier::external_body]
pub struct ExJsonValue(serde_json::Value);

/// What stands under a name in a JSON object.
#[derive(Debug)]
pub enum Member {
    /// No member of that name.
    Absent,
    /// A string.
    Text(String),
    /// A whole number that fits in 64 bits with sign.
    Integer(i64),
    /// An array of strings and nothing else.
    Texts(Vec<String>),
    /// Anything else: another number, a boolean, null, an object, a mixed array.
    Other,
}

/// A member by its content. Of an array, each item that is a string stands
/// with its text, every other item as `None`.
pub enum MemberView {
    Absent,
    Text(Seq<char>),
    Integer(i64),
    Array(Seq<Option<Seq<char>>>),
    Other,
}

/// A list of strings by the characters of each.
pub open spec fn texts_view(texts: Seq<String>) -> Seq<Seq<char>> {
    texts.map_values(|s: String| s@)
}

/// The array whose items are the given strings.
pub open spec fn array_of(texts: Seq<Seq<char>>) -> Seq<Option<Seq<char>>> {
    texts.map_values(|s: Seq<char>| Some(s))
}

/// Whether every item of an array is a string.
pub open spec fn all_texts(items: Seq<Option<Seq<char>>>) -> bool {
    forall|i: int| 0 <= i < items.len() ==> (#[trigger] items[i]) is Some
}

/// The strings of an array whose items are all strings.
pub open spec fn texts_of(items: Seq<Option<Seq<char>>>) -> Seq<Seq<char>> {
    items.map_values(|item: Option<Seq<char>>| item.unwrap())
}

/// A member as it is read: an array with an item that is no string counts
/// as anything else does.
pub open spec fn as_read(member: MemberView) -> MemberView {
    match member {
        MemberView::Array(items) => if all_texts(items) {
            member
        } else {
            MemberView::Other
        },
        _ => member,
    }
}

/// What a name is found to stand for at first sight: of an array only its
/// length.
#[derive(Debug)]
pub enum Kind {
    Absent,
    Text(String),
    Integer(i64),
    Array(usize),
    Other,
}

/// A first sight by its content.
pub enum KindView {
    Absent,
    Text(Seq<char>),
    Integer(i64),
    Array(nat),
    Other,
}

impl View for Kind {
    type V = KindView;

    open spec fn view(&self) -> KindView {
        match self {
            Kind::Absent => KindView::Absent,
            Kind::Text(s) => KindView::Text(s@),
            Kind::Integer(n) => KindView::Integer(*n),
            Kind::Array(len) => KindView::Array(*len as nat),
            Kind::Other => KindView::Other,
        }
    }
}

/// The first sight of a member.
pub open spec fn kind_of(member: MemberView) -> KindView {
    match member {
        MemberView::Absent => KindView::Absent,
        MemberView::Text(s) => KindView::Text(s),
        MemberView::Integer(n) => KindView::Integer(n),
        MemberView::Array(items) => KindView::Array(items.len()),
        MemberView::Other => KindView::Other,
    }
}

/// The item at `index` of the array that a member is, where it is one that
/// long.
pub open spec fn item_of(member: MemberView, index: int) -> Option<Seq<char>> {
    match member {
        MemberView::Array(items) => if 0 <= index < items.len() {
            items[index]
        } else {
            None
        },
        _ => None,
    }
}

/// An optional text by its characters.
pub open spec fn item_view(item: Option<String>) -> Option<Seq<char>> {
    match item {
        Some(s) => Some(s@),
        None => None,
    }
}

impl View for Member {
    type V = MemberView;

    open spec fn view(&self) -> MemberView {
        match self {
            Member::Absent => MemberView::Absent,
            Member::Text(s) => MemberView::Text(s@),
            Member::Integer(n) => MemberView::Integer(*n),
            Member::Texts(l) => MemberView::Array(array_of(texts_view(l@))),
            Member::Other => MemberView::Other,
        }
    }
}

/// The JSON value that `serde_json` reads from a text, where it reads one.
pub uninterp spec fn parsed_json(bytes: Seq<u8>) -> Option<serde_json::Value>;

/// The members of a JSON value by name, each classed as a string, a whole
/// number of 64 bits with sign, an array or anything else; a value that is
/// no object has none.
pub uninterp spec fn json_members(value: serde_json::Value) -> Map<Seq<char>, MemberView>;

/// What an object holds under `name`.
pub open spec fn member_of(members: Map<Seq<char>, MemberView>, name: Seq<char>) -> MemberView {
    if members.dom().contains(name) {
        members[name]
    } else {
        MemberView::Absent
    }
}

/// The members of the object written from `texts`, then `integers`: of two
/// entries with one name the later one stays.
pub open spec fn object_members(
    texts: Seq<(Seq<char>, Seq<char>)>,
    integers: Seq<(Seq<char>, i64)>,
) -> Map<Seq<char>, MemberView>
    decreases texts.len() + integers.len(),
{
    if integers.len() > 0 {
        object_members(texts, integers.drop_last()).insert(
            integers.last().0,
            MemberView::Integer(integers.last().1),
        )
    } else if texts.len() > 0 {
        object_members(texts.drop_last(), integers).insert(
            texts.last().0,
            MemberView::Text(texts.last().1),
        )
    } else {
        Map::empty()
    }
}

/// A list of named texts by the characters of each.
pub open spec fn named_texts_view(entries: Seq<(String, String)>) -> Seq<(Seq<char>, Seq<char>)> {
    entries.map_values(|e: (String, String)| (e.0@, e.1@))
}

/// A list of named numbers by the characters of each name.
pub open spec fn named_integers_view(entries: Seq<(String, i64)>) -> Seq<(Seq<char>, i64)> {
    entries.map_values(|e: (String, i64)| (e.0@, e.1))
}

/// Whether `bytes` are read as an object with exactly the members `members`.
pub open spec fn reads_back_as(bytes: Seq<u8>, members: Map<Seq<char>, MemberView>) -> bool {
    parsed_json(bytes) matches Some(value) && json_members(value) == members
}

/// `serde_json::from_slice::<serde_json::Value>`: the result is a function of
/// the bytes alone.
#[verifier::external_body]
pub(crate) fn json_parse(bytes: &[u8]) -> (r: Option<serde_json::Value>)
    ensures
        r == parsed_json(bytes@),
{
    serde_json::from_slice::<serde_json::Value>(bytes).ok()
}

/// `serde_json::Value::get` with a name, then the value's variant: a string,
/// a number that `as_i64` gives, an array by its length, or something else.
#[verifier::external_body]
fn json_kind(value: &serde_json::Value, name: &str) -> (r: Kind)
    ensures
        r@ == kind_of(member_of(json_members(*value), name@)),
{
    match value.get(name) {
        None => Kind::Absent,
        Some(serde_json::Value::String(s)) => Kind::Text(s.clone()),
        Some(serde_json::Value::Number(n)) => n.as_i64().map_or(Kind::Other, Kind::Integer),
        Some(serde_json::Value::Array(items)) => Kind::Array(items.len()),
        Some(_) => Kind::Other,
    }
}

/// `serde_json::Value::get` with a name, then with an index, then `as_str`:
/// the item of the array under the name, where it is a string.
#[verifier::external_body]
fn json_item(value: &serde_json::Value, name: &str, index: usize) -> (r: Option<String>)
    ensures
        item_view(r) == item_of(member_of(json_members(*value), name@), index as int),
{
    value.get(name).and_then(|items| items.get(index)).and_then(|item| item.as_str()).map(
        str::to_owned,
    )
}

/// What an object holds under `name`, as it is read: a string, a whole
/// number, an array of strings and nothing else, or something else.
pub(crate) fn json_member(value: &serde_json::Value, name: &str) -> (r: Member)
    ensures
        r@ == as_read(member_of(json_members(*value), name@)),
{
    let ghost member = member_of(json_members(*value), name@);
    match json_kind(value, name) {
        Kind::Absent => Member::Absent,
        Kind::Text(s) => Member::Text(s),
        Kind::Integer(n) => Member::Integer(n),
        Kind::Other => Member::Other,
        Kind::Array(len) => {
            let ghost items = member->Array_0;
            let mut texts: Vec<String> = Vec::new();
            let mut i: usize = 0;
            while i < len
                invariant
                    i <= len,
                    member == MemberView::Array(items),
                    member == member_of(json_members(*value), name@),
                    items.len() == len,
                    texts@.len() == i,
                    forall|j: int| 0 <= j < i ==> (#[trigger] items[j]) == Some(texts@[j]@),
                decreases len - i,
            {
                match json_item(value, name, i) {
                    Some(text) => {
                        texts.push(text);
                    },
                    None => {
                        assert(items[i as int] is None);
                        return Member::Other;
                    },
                }
                i += 1;
            }
            assert(array_of(texts_view(texts@)) =~= items);
            Member::Texts(texts)
        },
    }
}

/// Whether a name is one that `serde_json` keeps for itself: an object that
/// leads with such a name is read as a number or as a raw value, not as an
/// object.
pub open spec fn reserved_name(name: Seq<char>) -> bool {
    name == "$serde_json::private::Number"@ || name == "$serde_json::private::RawValue"@
}

/// Whether none of the names of the texts is reserved.
pub open spec fn text_names_free(entries: Seq<(Seq<char>, Seq<char>)>) -> bool {
    forall|i: int| 0 <= i < entries.len() ==> !reserved_name((#[trigger] entries[i]).0)
}

/// Whether none of the names of the numbers is reserved.
pub open spec fn integer_names_free(entries: Seq<(Seq<char>, i64)>) -> bool {
    forall|i: int| 0 <= i < entries.len() ==> !reserved_name((#[trigger] entries[i]).0)
}

/// `serde_json::to_vec` of a `serde_json::Map` collected from the entries:
/// it does not fail on string keys, and where no name is one that
/// `serde_json` keeps for itself, `from_slice` reads the bytes back as an
/// object with exactly these members.
#[verifier::external_body]
pub(crate) fn json_object_bytes(texts: &Vec<(String, String)>, integers: &Vec<(String, i64)>) -> (r:
    Option<Vec<u8>>)
    requires
        text_names_free(named_texts_view(texts@)),
        integer_names_free(named_integers_view(integers@)),
    ensures
        r.is_some(),
        reads_back_as(r.unwrap()@, object_members(named_texts_view(texts@), named_integers_view(integers@))),
{
    let texts = texts.iter().map(|(k, v)| (k.clone(), serde_json::Value::from(v.as_str())));
    let integers = integers.iter().map(|(k, v)| (k.clone(), serde_json::Value::from(*v)));
    let object: serde_json::Map<String, serde_json::Value> = texts.chain(integers).collect();
    serde_json::to_vec(&object).ok()
}

} // verus!
