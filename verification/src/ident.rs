//! Account and record identifiers: 128-bit universally unique identifiers.

use vstd::arithmetic::power::pow;
use vstd::prelude::*;

verus! {

/// The identifier that `uuid` reads from a text, where it reads one.
pub uninterp spec fn parsed_uuid(text: Seq<char>) -> Option<u128>;

/// The lower-case hexadecimal digit for `n`, where `0 <= n < 16`.
pub open spec fn hex_digit(n: int) -> char {
    seq!['0', '1', '2', '3', '4', '5', '6', '7', '8', '9', 'a', 'b', 'c', 'd', 'e', 'f'][n]
}

/// The `k`-th of the 32 hexadecimal digits of `v`, the most significant first.
pub open spec fn nibble(v: u128, k: int) -> int {
    (v as int / pow(16, (31 - k) as nat)) % 16
}

/// Which digit stands at place `i` of the hyphenated form; the hyphens have
/// the places 8, 13, 18 and 23.
pub open spec fn digit_at_place(i: int) -> int {
    if i < 8 {
        i
    } else if i < 13 {
        i - 1
    } else if i < 18 {
        i - 2
    } else if i < 23 {
        i - 3
    } else {
        i - 4
    }
}

/// The hyphenated lower-case form: 36 characters in groups of 8, 4, 4, 4 and 12 digits.
pub open spec fn hyphenated(v: u128) -> Seq<char> {
    Seq::new(
        36,
        |i: int|
            if i == 8 || i == 13 || i == 18 || i == 23 {
                '-'
            } else {
                hex_digit(nibble(v, digit_at_place(i)))
            },
    )
}

/// `uuid::Uuid::try_parse`, then `as_u128`: the result is a function of the
/// text alone.
#[verifier::external_body]
fn uuid_parse(text: &str) -> (r: Option<u128>)
    ensures
        r == parsed_uuid(text@),
{
    ::uuid::Uuid::try_parse(text).ok().map(|u| u.as_u128())
}

/// `uuid::Uuid::from_u128`, then `to_string`: the hyphenated lower-case form,
/// which `try_parse` reads back as the same identifier.
#[verifier::external_body]
fn uuid_text(value: u128) -> (r: String)
    ensures
        r@ == hyphenated(value),
        parsed_uuid(r@) == Some(value),
{
    ::uuid::Uuid::from_u128(value).to_string()
}

/// The version that an identifier declares: the thirteenth of its 32
/// hexadecimal digits.
pub open spec fn version_of(v: u128) -> int {
    nibble(v, 12)
}

/// Whether an identifier has the layout that the standard gives to versions
/// 1 to 8: its seventeenth hexadecimal digit is `8`, `9`, `a` or `b`.
pub open spec fn has_standard_variant(v: u128) -> bool {
    8 <= nibble(v, 16) <= 11
}

/// The 48 bits that lead an identifier, as a number.
pub open spec fn leading_bits(v: u128) -> int {
    v as int / 0x1_0000_0000_0000_0000_0000
}

/// The whole milliseconds since the epoch of a time given in seconds and
/// nanoseconds, as far as 64 bits count them.
pub open spec fn unix_millis(seconds: u64, nanoseconds: u32) -> int {
    let whole = if seconds * 1000 > u64::MAX {
        u64::MAX as int
    } else {
        seconds * 1000
    };
    if whole + nanoseconds / 1_000_000 > u64::MAX {
        u64::MAX as int
    } else {
        whole + nanoseconds / 1_000_000
    }
}

/// Whether an identifier is one of version 7 made at the given time: it
/// declares version 7 in the standard layout and leads with the low 48 bits
/// of the time in milliseconds.
pub open spec fn made_at(v: u128, seconds: u64, nanoseconds: u32) -> bool {
    &&& version_of(v) == 7
    &&& has_standard_variant(v)
    &&& leading_bits(v) == unix_millis(seconds, nanoseconds) % 0x1_0000_0000_0000
}

/// `uuid::Uuid::new_v4`: 122 random bits around the marks of version 4 in
/// the standard layout; nothing else is known of the outcome.
#[verifier::external_body]
fn uuid_random() -> (r: u128)
    ensures
        version_of(r) == 4,
        has_standard_variant(r),
{
    ::uuid::Uuid::new_v4().as_u128()
}

/// `uuid::Uuid::now_v7`: the marks of version 7 in the standard layout
/// around the clock's time, a counter that this process shares and random
/// bits. It does not return where the clock stands before the epoch, so it
/// is called only after the clock has shown a time.
#[verifier::external_body]
fn uuid_now() -> (r: u128)
    ensures
        version_of(r) == 7,
        has_standard_variant(r),
{
    ::uuid::Uuid::now_v7().as_u128()
}

/// `uuid::Uuid::new_v7` on `uuid::Timestamp::from_unix` without a counter:
/// the low 48 bits of the time in milliseconds, the marks of version 7 in
/// the standard layout, and 74 random bits.
#[verifier::external_body]
fn uuid_at(seconds: u64, nanoseconds: u32) -> (r: u128)
    ensures
        made_at(r, seconds, nanoseconds),
{
    let at = ::uuid::Timestamp::from_unix(::uuid::NoContext, seconds, nanoseconds);
    ::uuid::Uuid::new_v7(at).as_u128()
}

/// A universally unique identifier, held as its 128-bit value.
#[derive(Clone, Copy, Debug, PartialEq, Eq, Structural, Hash)]
pub struct Uuid {
    pub value: u128,
}

impl View for Uuid {
    type V = u128;

    open spec fn view(&self) -> u128 {
        self.value
    }
}

impl Uuid {
    /// The identifier with the 128-bit value `value`.
    pub fn from_u128(value: u128) -> (r: Uuid)
        ensures
            r@ == value,
    {
        Uuid { value }
    }

    /// The 128-bit value.
    pub fn as_u128(&self) -> (r: u128)
        ensures
            r == self@,
    {
        self.value
    }

    /// What `try_parse` gives for a text.
    pub open spec fn spec_parse(text: Seq<char>) -> Option<u128> {
        parsed_uuid(text)
    }

    /// Reads an identifier from its text. `None` where the text is none.
    pub fn try_parse(text: &str) -> (r: Option<Uuid>)
        ensures
            r.is_some() == Self::spec_parse(text@).is_some(),
            r matches Some(u) ==> Self::spec_parse(text@) == Some(u@),
    {
        match uuid_parse(text) {
            Some(value) => Some(Uuid { value }),
            None => None,
        }
    }

    /// The hyphenated lower-case text, which `try_parse` reads back.
    pub fn to_text(&self) -> (r: String)
        ensures
            r@ == hyphenated(self@),
            Self::spec_parse(r@) == Some(self@),
    {
        uuid_text(self.value)
    }

    /// A fresh random identifier of version 4.
    pub fn new_v4() -> (r: Uuid)
        ensures
            version_of(r@) == 4,
            has_standard_variant(r@),
    {
        Uuid { value: uuid_random() }
    }

    /// A fresh identifier of version 7, made from the time at which the clock
    /// stands and a counter, so that the identifiers of one process sort in
    /// the order of their making. `None` where the clock stands before the
    /// epoch.
    pub fn now_v7() -> (r: Option<Uuid>)
        ensures
            r matches Some(id) ==> version_of(id@) == 7 && has_standard_variant(id@),
    {
        match crate::clock::system_time() {
            Some(_) => Some(Uuid { value: uuid_now() }),
            None => None,
        }
    }

    /// A fresh identifier of version 7 for the time that stands `seconds`
    /// and `nanoseconds` after the epoch: it leads with the low 48 bits of
    /// that time in milliseconds.
    pub fn new_v7(seconds: u64, nanoseconds: u32) -> (r: Uuid)
        ensures
            made_at(r@, seconds, nanoseconds),
    {
        Uuid { value: uuid_at(seconds, nanoseconds) }
    }
}

/// Of two identifiers of version 7 the one made in a later millisecond is
/// the greater, as long as 48 bits count the milliseconds.
pub proof fn lemma_later_identifier_is_greater(
    earlier: u128,
    later: u128,
    first_seconds: u64,
    first_nanoseconds: u32,
    second_seconds: u64,
    second_nanoseconds: u32,
)
    requires
        made_at(earlier, first_seconds, first_nanoseconds),
        made_at(later, second_seconds, second_nanoseconds),
        unix_millis(first_seconds, first_nanoseconds) < unix_millis(
            second_seconds,
            second_nanoseconds,
        ),
        unix_millis(second_seconds, second_nanoseconds) < 0x1_0000_0000_0000,
    ensures
        earlier < later,
{
}

} // verus!
