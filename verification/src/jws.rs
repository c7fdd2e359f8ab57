//! Signed compact tokens: three base64url segments joined by dots, the last
//! an HMAC-SHA256 tag over the first two. Sealing and opening is `biscuit`'s.

use vstd::prelude::*;

verus! {

/// Why a token could not be opened.
#[derive(Clone, Copy, Debug, PartialEq, Eq, Structural)]
pub enum DecodeFault {
    /// The tag is not the one that the key gives for the signed part.
    BadSignature,
    /// Anything else: not three segments, bad base64url, an unreadable header,
    /// another algorithm.
    Malformed,
}

/// What a token holds once its signature has been checked.
#[derive(Debug)]
pub struct SignedContent {
    /// The media type that the header declares, if any.
    pub media_type: Option<String>,
    /// The signed payload.
    pub payload: Vec<u8>,
}

pub struct SignedContentView {
    pub media_type: Option<Seq<char>>,
    pub payload: Seq<u8>,
}

impl View for SignedContent {
    type V = SignedContentView;

    open spec fn view(&self) -> SignedContentView {
        SignedContentView {
            media_type: match self.media_type {
                Some(t) => Some(t@),
                None => None,
            },
            payload: self.payload@,
        }
    }
}

/// What `biscuit` finds in a token under an HMAC-SHA256 key.
pub uninterp spec fn hs256_opened(token: Seq<u8>, key: Seq<u8>) -> Result<
    SignedContentView,
    DecodeFault,
>;

/// A letter, a digit, `-`, `_` or `.`: the characters of a compact token.
pub open spec fn token_char(c: char) -> bool {
    ||| ('A' <= c && c <= 'Z')
    ||| ('a' <= c && c <= 'z')
    ||| ('0' <= c && c <= '9')
    ||| c == '-'
    ||| c == '_'
    ||| c == '.'
}

/// Whether a text is made of token characters only.
pub open spec fn token_text(text: Seq<char>) -> bool {
    forall|i: int| 0 <= i < text.len() ==> token_char(#[trigger] text[i])
}

/// The number of dots in a text.
pub open spec fn dots(text: Seq<char>) -> nat
    decreases text.len(),
{
    if text.len() == 0 {
        0
    } else if text.last() == '.' {
        1 + dots(text.drop_last())
    } else {
        dots(text.drop_last())
    }
}

/// The bytes of an ASCII text.
pub open spec fn ascii_bytes(text: Seq<char>) -> Seq<u8> {
    Seq::new(text.len(), |i: int| text[i] as u8)
}

/// What opening gives as the view of an executable result.
pub open spec fn opened_view(r: Result<SignedContent, DecodeFault>) -> Result<
    SignedContentView,
    DecodeFault,
> {
    match r {
        Ok(content) => Ok(content@),
        Err(fault) => Err(fault),
    }
}

/// What opening a token gives that was sealed with this media type and payload.
pub open spec fn sealed_content(media_type: Seq<char>, payload: Seq<u8>) -> Result<
    SignedContentView,
    DecodeFault,
> {
    Ok(SignedContentView { media_type: Some(media_type), payload })
}

/// `biscuit::jws::Compact::<Vec<u8>, biscuit::Empty>::decode` with
/// `SignatureAlgorithm::HS256` and `Secret::Bytes`: the outcome is a function
/// of token and key alone. A tag that does not verify is told apart from
/// every other failure.
#[verifier::external_body]
pub(crate) fn jws_open(token: &[u8], key: &[u8]) -> (r: Result<SignedContent, DecodeFault>)
    ensures
        opened_view(r) == hs256_opened(token@, key@),
{
    let text = String::from_utf8_lossy(token);
    let sealed = biscuit::jws::Compact::<Vec<u8>, biscuit::Empty>::new_encoded(&text);
    let secret = biscuit::jws::Secret::Bytes(key.to_vec());
    match sealed.decode(&secret, biscuit::jwa::SignatureAlgorithm::HS256) {
        Ok(biscuit::jws::Compact::Decoded { header, payload }) => Ok(
            SignedContent { media_type: header.registered.media_type, payload },
        ),
        Err(biscuit::errors::Error::ValidationError(
            biscuit::errors::ValidationError::InvalidSignature,
        )) => Err(DecodeFault::BadSignature),
        _ => Err(DecodeFault::Malformed),
    }
}

/// `biscuit::jws::Compact::<Vec<u8>, biscuit::Empty>::encode` under a header
/// with `HS256` and the given media type: signing with a byte key does not
/// fail, the token is three segments of token characters joined by two dots
/// and holds no other dot, so it is not empty, and opening it with the same
/// key gives the media type and the payload back.
#[verifier::external_body]
pub(crate) fn jws_seal(media_type: &str, payload: &[u8], key: &[u8]) -> (r: Option<String>)
    ensures
        r.is_some(),
        token_text(r.unwrap()@),
        dots(r.unwrap()@) == 2,
        r.unwrap()@.len() >= 2,
        hs256_opened(ascii_bytes(r.unwrap()@), key@) == sealed_content(media_type@, payload@),
{
    let header = biscuit::jws::RegisteredHeader {
        algorithm: biscuit::jwa::SignatureAlgorithm::HS256,
        media_type: Some(media_type.to_owned()),
        ..Default::default()
    };
    let open = biscuit::jws::Compact::<Vec<u8>, biscuit::Empty>::new_decoded(
        biscuit::jws::Header::from_registered_header(header),
        payload.to_vec(),
    );
    let sealed = open.encode(&biscuit::jws::Secret::Bytes(key.to_vec())).ok()?;
    sealed.encoded().ok().map(|compact| compact.encode())
}

} // verus!
