//! The `Authorization` header of HTTP Basic authentication.

use base64::engine::general_purpose::STANDARD;
use base64::Engine;
use vstd::prelude::*;
use vstd::string::*;
use vstd::utf8::encode_utf8;

verus! {

/// The standard base64 text of `bytes`, with padding.
pub uninterp spec fn base64_standard(bytes: Seq<u8>) -> Seq<char>;

/// Whether `c` belongs to the standard base64 alphabet or is the padding sign.
pub open spec fn is_base64_symbol(c: char) -> bool {
    ('A' <= c && c <= 'Z') || ('a' <= c && c <= 'z') || ('0' <= c && c <= '9') || c == '+' || c
        == '/' || c == '='
}

/// The length of the padded base64 text of `n` bytes: four characters for
/// every three bytes or part of them.
pub open spec fn base64_len(n: nat) -> nat {
    4 * ((n + 2) / 3)
}

/// Calls `encode` of `base64::engine::general_purpose::STANDARD`.
///
/// Trusted: the result is the padded standard base64 text of `bytes`, a
/// function of the bytes alone; it has four characters for every three bytes
/// or part of them, each from the standard alphabet or the padding sign. The
/// call panics when that length does not fit in `usize`, which the
/// precondition leaves out.
#[verifier::external_body]
pub(crate) fn base64_encode(bytes: &[u8]) -> (text: String)
    requires
        base64_len(bytes@.len()) <= usize::MAX,
    ensures
        text@ == base64_standard(bytes@),
        text@.len() == base64_len(bytes@.len()),
        forall|i: int| 0 <= i < text@.len() ==> is_base64_symbol(#[trigger] text@[i]),
{
    STANDARD.encode(bytes)
}

/// The user name and the password with a colon between them.
pub open spec fn credential_text(username: Seq<char>, password: Seq<char>) -> Seq<char> {
    username + seq![':'] + password
}

/// The header value for the given credentials: the scheme's name, a space, and
/// the base64 text of the credentials in UTF-8.
pub open spec fn basic_authorization(username: Seq<char>, password: Seq<char>) -> Seq<char> {
    "Basic "@ + base64_standard(encode_utf8(credential_text(username, password)))
}

/// Whether the base64 text of the credentials has a length that fits in
/// `usize`.
pub open spec fn encodable(username: Seq<char>, password: Seq<char>) -> bool {
    base64_len(encode_utf8(credential_text(username, password)).len()) <= usize::MAX
}

/// Whether every character of `text` is a printable ASCII character, so that
/// the text can stand as the value of an HTTP header.
pub open spec fn is_header_text(text: Seq<char>) -> bool {
    forall|i: int| 0 <= i < text.len() ==> ' ' <= #[trigger] text[i] && text[i] <= '~'
}

/// UTF-8 takes at most four bytes for a character.
pub proof fn lemma_utf8_len(text: Seq<char>)
    ensures
        encode_utf8(text).len() <= 4 * text.len(),
    decreases text.len(),
{
    if text.len() > 0 {
        lemma_utf8_len(text.drop_first());
    }
}

/// Credentials of fewer than 2^28 characters in all can be encoded on every
/// machine, so a header value is owed for them.
pub proof fn lemma_encodable(username: Seq<char>, password: Seq<char>)
    requires
        username.len() + password.len() < 0x1000_0000,
    ensures
        encodable(username, password),
{
    lemma_utf8_len(credential_text(username, password));
}

/// Whether the base64 text of `len` bytes has a length that fits in `usize`.
pub fn fits_base64(len: usize) -> (fits: bool)
    ensures
        fits == (base64_len(len as nat) <= usize::MAX),
{
    let partial: usize = if len % 3 == 0 { 0 } else { 1 };
    let groups: usize = len / 3 + partial;
    groups <= usize::MAX / 4
}

/// Writes the credentials as one text: the user name, a colon, the password.
pub fn credential_string(username: &str, password: &str) -> (text: String)
    ensures
        text@ == credential_text(username@, password@),
{
    proof {
        reveal_strlit(":");
    }
    let mut text = String::new();
    text.append(username);
    text.append(":");
    text.append(password);
    assert(text@ =~= credential_text(username@, password@));
    text
}

/// Puts the name of the Basic scheme and a space before encoded credentials.
pub fn basic_value(encoded: &str) -> (value: String)
    ensures
        value@ == "Basic "@ + encoded@,
{
    let mut value = String::new();
    value.append("Basic ");
    value.append(encoded);
    assert(value@ =~= "Basic "@ + encoded@);
    value
}

/// Builds the value of the `Authorization` header for the given credentials.
///
/// Returns `None` only for credentials so long that their base64 text would
/// not fit in memory. A value that is returned holds printable ASCII only.
pub fn authorization_value(username: &str, password: &str) -> (value: Option<String>)
    ensures
        value is Some <==> encodable(username@, password@),
        value matches Some(text) ==> text@ == basic_authorization(username@, password@)
            && is_header_text(text@),
{
    let credentials = credential_string(username, password);
    let bytes = credentials.as_str().as_bytes();
    if !fits_base64(bytes.len()) {
        return None;
    }
    let encoded = base64_encode(bytes);
    proof {
        reveal_strlit("Basic ");
    }
    Some(basic_value(encoded.as_str()))
}

} // verus!
