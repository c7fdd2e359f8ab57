//! Reading the `Authorization` header: printable text, the `Bearer` scheme,
//! and the token that follows it.

use vstd::prelude::*;
use vstd::slice::slice_subrange;

verus! {

/// Length of the scheme with the space that ends it.
pub const SCHEME_LEN: usize = 7;

/// A printable ASCII character, a space or a tab.
pub open spec fn visible_ascii(b: u8) -> bool {
    (32 <= b && b < 127) || b == 9
}

/// Whether a header value is printable text throughout.
pub open spec fn printable(value: Seq<u8>) -> bool {
    forall|i: int| 0 <= i < value.len() ==> visible_ascii(#[trigger] value[i])
}

/// An ASCII capital as its small letter, any other byte as itself.
pub open spec fn ascii_lower(b: u8) -> u8 {
    if 65 <= b && b <= 90 {
        (b + 32) as u8
    } else {
        b
    }
}

/// The scheme in small letters, with the space that ends it: `bearer `.
pub open spec fn scheme() -> Seq<u8> {
    seq![98u8, 101u8, 97u8, 114u8, 101u8, 114u8, 32u8]
}

/// Whether a header value starts with the scheme, in any mix of cases.
pub open spec fn has_scheme(value: Seq<u8>) -> bool {
    &&& value.len() >= SCHEME_LEN
    &&& forall|i: int| 0 <= i < SCHEME_LEN ==> ascii_lower(#[trigger] value[i]) == scheme()[i]
}

/// Number of spaces that `text` starts with.
pub open spec fn leading_spaces(text: Seq<u8>) -> nat
    decreases text.len(),
{
    if text.len() > 0 && text[0] == 32 {
        1 + leading_spaces(text.drop_first())
    } else {
        0
    }
}

/// The token of a header value that has the scheme: what follows the scheme
/// and any further spaces.
pub open spec fn token_part(value: Seq<u8>) -> Seq<u8> {
    let rest = value.skip(SCHEME_LEN as int);
    rest.skip(leading_spaces(rest) as int)
}

/// The bearer token of a header value; `None` where the value does not start
/// with the scheme, or where no token follows it.
pub open spec fn spec_bearer_token(value: Seq<u8>) -> Option<Seq<u8>> {
    if has_scheme(value) && token_part(value).len() > 0 {
        Some(token_part(value))
    } else {
        None
    }
}

/// The leading spaces are spaces, they are followed by something else or by
/// nothing, and there are no more of them than bytes.
pub proof fn lemma_leading_spaces(text: Seq<u8>)
    ensures
        leading_spaces(text) <= text.len(),
        forall|i: int| 0 <= i < leading_spaces(text) ==> text[i] == 32,
        leading_spaces(text) < text.len() ==> text[leading_spaces(text) as int] != 32,
    decreases text.len(),
{
    if text.len() > 0 && text[0] == 32 {
        let rest = text.drop_first();
        lemma_leading_spaces(rest);
        assert forall|i: int| 0 <= i < leading_spaces(text) implies text[i] == 32 by {
            if i > 0 {
                assert(text[i] == rest[i - 1]);
            }
        }
        if leading_spaces(text) < text.len() {
            assert(text[leading_spaces(text) as int] == rest[leading_spaces(rest) as int]);
        }
    }
}

/// A run of `n` spaces followed by something else, or by nothing, has `n`
/// leading spaces.
pub proof fn lemma_leading_spaces_is(text: Seq<u8>, n: nat)
    requires
        n <= text.len(),
        forall|i: int| 0 <= i < n ==> text[i] == 32,
        n < text.len() ==> text[n as int] != 32,
    ensures
        leading_spaces(text) == n,
    decreases n,
{
    if n > 0 {
        let rest = text.drop_first();
        assert forall|i: int| 0 <= i < n - 1 implies rest[i] == 32 by {
            assert(rest[i] == text[i + 1]);
        }
        if n - 1 < rest.len() {
            assert(rest[n - 1] == text[n as int]);
        }
        lemma_leading_spaces_is(rest, (n - 1) as nat);
    }
}

/// A token that a header bears is not empty and does not start with a
/// space.
pub proof fn lemma_token_has_no_leading_space(value: Seq<u8>)
    requires
        has_scheme(value),
    ensures
        token_part(value).len() > 0 ==> token_part(value)[0] != 32,
        token_part(value).len() <= value.len() - SCHEME_LEN,
        spec_bearer_token(value) matches Some(token) ==> token.len() > 0 && token[0] != 32,
{
    lemma_leading_spaces(value.skip(SCHEME_LEN as int));
}

/// Whether `b` is printable text.
pub fn is_visible_ascii(b: u8) -> (r: bool)
    ensures
        r == visible_ascii(b),
{
    (32 <= b && b < 127) || b == 9
}

/// Whether a header value is printable text throughout.
pub fn is_printable(value: &[u8]) -> (r: bool)
    ensures
        r == printable(value@),
{
    let mut i: usize = 0;
    while i < value.len()
        invariant
            i <= value.len(),
            forall|j: int| 0 <= j < i ==> visible_ascii(#[trigger] value@[j]),
        decreases value.len() - i,
    {
        if !is_visible_ascii(value[i]) {
            return false;
        }
        i += 1;
    }
    true
}

/// An ASCII capital as its small letter, any other byte as itself.
pub fn to_ascii_lower(b: u8) -> (r: u8)
    ensures
        r == ascii_lower(b),
{
    if 65 <= b && b <= 90 {
        b + 32
    } else {
        b
    }
}

/// Whether a header value starts with the `Bearer` scheme and a space, in any
/// mix of cases.
pub fn starts_with_scheme(value: &[u8]) -> (r: bool)
    ensures
        r == has_scheme(value@),
{
    if value.len() < SCHEME_LEN {
        return false;
    }
    let scheme_bytes: [u8; 7] = [98, 101, 97, 114, 101, 114, 32];
    assert(scheme_bytes@ =~= scheme());
    let mut i: usize = 0;
    while i < SCHEME_LEN
        invariant
            i <= SCHEME_LEN,
            value@.len() >= SCHEME_LEN,
            scheme_bytes@ == scheme(),
            forall|j: int| 0 <= j < i ==> ascii_lower(#[trigger] value@[j]) == scheme()[j],
        decreases SCHEME_LEN - i,
    {
        if to_ascii_lower(value[i]) != scheme_bytes[i] {
            return false;
        }
        i += 1;
    }
    true
}

/// The bearer token that a header value carries: what follows the scheme and
/// any further spaces. `None` where the value does not start with the scheme
/// or nothing but spaces follows it.
pub fn bearer_token(value: &[u8]) -> (r: Option<&[u8]>)
    ensures
        r.is_some() == spec_bearer_token(value@).is_some(),
        r matches Some(token) ==> spec_bearer_token(value@) == Some(token@),
        r matches Some(token) ==> token@.len() > 0 && token@[0] != 32,
{
    if !starts_with_scheme(value) {
        return None;
    }
    proof {
        lemma_token_has_no_leading_space(value@);
    }
    let ghost rest = value@.skip(SCHEME_LEN as int);
    let mut start: usize = SCHEME_LEN;
    while start < value.len() && value[start] == 32
        invariant
            SCHEME_LEN <= start <= value.len(),
            forall|j: int| SCHEME_LEN <= j < start ==> value@[j] == 32,
        decreases value.len() - start,
    {
        start += 1;
    }
    proof {
        assert forall|i: int| 0 <= i < start - SCHEME_LEN implies rest[i] == 32 by {
            assert(rest[i] == value@[i + SCHEME_LEN]);
        }
        lemma_leading_spaces_is(rest, (start - SCHEME_LEN) as nat);
        assert(rest.skip(start - SCHEME_LEN) =~= value@.subrange(start as int, value@.len() as int));
    }
    if start == value.len() {
        return None;
    }
    Some(slice_subrange(value, start, value.len()))
}

} // verus!
