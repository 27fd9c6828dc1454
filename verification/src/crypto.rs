//! Secrets and claims for the tokens that guard the local control server.
//!
//! A secret is 32 random bytes, handed around as 64 lower-case hexadecimal
//! digits. A token carries a subject and an expiry one day after it was
//! issued.

use vstd::prelude::*;

verus! {

/// Number of bytes in a secret.
pub const SECRET_BYTES: usize = 32;

/// Seconds for which a token is valid.
pub const TOKEN_LIFETIME_SECS: u64 = 86400;

/// What a token claims: who it was issued to, and the Unix time in seconds
/// at which it expires.
#[derive(Clone, Debug, PartialEq, Eq)]
pub struct Claims {
    pub sub: String,
    pub exp: usize,
}

/// The lower-case hexadecimal digit for a value below 16.
pub open spec fn hex_digit(n: u8) -> char {
    if n < 10 {
        (48 + n) as char
    } else {
        (87 + n) as char
    }
}

/// The value of a hexadecimal digit of either case, if it is one.
pub open spec fn hex_value(c: char) -> Option<u8> {
    if '0' <= c <= '9' {
        Some((c as u32 - 48) as u8)
    } else if 'a' <= c <= 'f' {
        Some((c as u32 - 87) as u8)
    } else if 'A' <= c <= 'F' {
        Some((c as u32 - 55) as u8)
    } else {
        None
    }
}

/// The text of a byte string: two lower-case digits per byte, high digit
/// first.
pub open spec fn hex_text(bytes: Seq<u8>) -> Seq<char> {
    Seq::new(
        2 * bytes.len(),
        |i: int|
            if i % 2 == 0 {
                hex_digit(bytes[i / 2] / 16)
            } else {
                hex_digit(bytes[i / 2] % 16)
            },
    )
}

/// Whether a text spells a byte string: an even number of characters, all
/// of them hexadecimal digits.
pub open spec fn is_hex_text(text: Seq<char>) -> bool {
    &&& text.len() % 2 == 0
    &&& forall|i: int| 0 <= i < text.len() ==> (#[trigger] hex_value(text[i])) is Some
}

/// The byte string that a hexadecimal text spells.
pub open spec fn bytes_of_hex(text: Seq<char>) -> Seq<u8> {
    Seq::new(
        text.len() / 2,
        |i: int| (hex_value(text[2 * i]).unwrap() * 16 + hex_value(text[2 * i + 1]).unwrap()) as u8,
    )
}

/// `hex::FromHexError`, handed from the decoder to the place that turns it
/// into `None`.
#[verifier::external_type_specification]
#[verifier::external_body]
pub struct ExFromHexError(hex::FromHexError);

/// Calls `hex::decode`. The crate decodes exactly the texts of even length
/// whose characters are all hexadecimal digits, of either case, and gives
/// one byte per pair of digits, high digit first.
#[verifier::external_body]
fn hex_decode(text: &str) -> (decoded: Result<Vec<u8>, hex::FromHexError>)
    ensures
        decoded is Ok <==> is_hex_text(text@),
        decoded matches Ok(bytes) ==> bytes@ == bytes_of_hex(text@),
{
    hex::decode(text)
}

/// Fills a new key with `RngCore::fill_bytes` on the generator that
/// `rand::rng` hands out. Nothing is claimed about the bytes.
#[verifier::external_body]
fn random_key() -> (key: [u8; 32]) {
    let mut key = [0u8; 32];
    rand::RngCore::fill_bytes(&mut rand::rng(), &mut key);
    key
}

/// The lower-case hexadecimal digit for a value below 16.
fn digit(n: u8) -> (c: char)
    requires
        n < 16,
    ensures
        c == hex_digit(n),
{
    if n < 10 {
        (48 + n) as char
    } else {
        (87 + n) as char
    }
}

/// Writes a byte string as text: two lower-case hexadecimal digits per
/// byte.
pub fn encode_hex(bytes: &[u8]) -> (text: String)
    ensures
        text@ == hex_text(bytes@),
        text@.len() == 2 * bytes@.len(),
        is_hex_text(text@),
{
    let mut text = String::new();
    let mut i: usize = 0;
    while i < bytes.len()
        invariant
            0 <= i <= bytes@.len(),
            text@ == hex_text(bytes@.take(i as int)),
        decreases bytes@.len() - i,
    {
        let b: u8 = bytes[i];
        let ghost before = text@;
        text.push(digit(b / 16));
        text.push(digit(b % 16));
        proof {
            assert(bytes@.take(i + 1) == bytes@.take(i as int).push(b));
            assert(text@ =~= hex_text(bytes@.take(i + 1)));
        }
        i += 1;
    }
    proof {
        assert(bytes@.take(i as int) == bytes@);
        lemma_hex_round_trip(bytes@);
    }
    text
}

/// The text of a byte string is a hexadecimal text, and it spells the byte
/// string it was written from.
pub proof fn lemma_hex_round_trip(bytes: Seq<u8>)
    ensures
        is_hex_text(hex_text(bytes)),
        bytes_of_hex(hex_text(bytes)) == bytes,
{
    let text = hex_text(bytes);
    assert forall|n: u8| n < 16 implies #[trigger] hex_value(hex_digit(n)) == Some(n) by {}
    assert forall|i: int| 0 <= i < text.len() implies (#[trigger] hex_value(text[i])) is Some by {
        assert(bytes[i / 2] / 16 < 16 && bytes[i / 2] % 16 < 16);
    }
    assert forall|i: int| 0 <= i < bytes.len() implies bytes_of_hex(text)[i] == bytes[i] by {
        let b = bytes[i];
        assert(text[2 * i] == hex_digit(b / 16));
        assert(text[2 * i + 1] == hex_digit(b % 16));
        assert(hex_value(hex_digit(b / 16)) == Some((b / 16) as u8));
        assert(hex_value(hex_digit(b % 16)) == Some((b % 16) as u8));
    }
    assert(bytes_of_hex(text) =~= bytes);
}

/// A new secret: 64 lower-case hexadecimal digits that spell 32 random
/// bytes.
pub fn generate_secret_hex() -> (secret: String)
    ensures
        secret@.len() == 2 * SECRET_BYTES,
        is_hex_text(secret@),
        exists|key: Seq<u8>| key.len() == SECRET_BYTES && secret@ == hex_text(key),
{
    let key = random_key();
    encode_hex(key.as_slice())
}

/// The bytes that a secret spells, or `None` when the text is not an even
/// number of hexadecimal digits.
pub fn decode_secret(secret_hex: &str) -> (secret: Option<Vec<u8>>)
    ensures
        secret is Some <==> is_hex_text(secret_hex@),
        secret matches Some(bytes) ==> bytes@ == bytes_of_hex(secret_hex@),
{
    match hex_decode(secret_hex) {
        Ok(bytes) => Some(bytes),
        Err(_) => None,
    }
}

/// The expiry of a token issued at `now_secs`: one lifetime later, held at
/// the top of the range.
pub open spec fn expiry_after(now_secs: u64) -> u64 {
    if now_secs + TOKEN_LIFETIME_SECS > u64::MAX {
        u64::MAX
    } else {
        (now_secs + TOKEN_LIFETIME_SECS) as u64
    }
}

impl Claims {
    /// The claims of a token issued to `subject` at Unix time `now_secs`.
    pub fn issue(subject: &str, now_secs: u64) -> (claims: Claims)
        ensures
            claims.sub@ == subject@,
            claims.exp == expiry_after(now_secs) as usize,
    {
        let exp: u64 = now_secs.saturating_add(TOKEN_LIFETIME_SECS);
        #[verifier::truncate]
        let exp_here: usize = exp as usize;
        Claims { sub: subject.to_owned(), exp: exp_here }
    }
}

} // verus!
