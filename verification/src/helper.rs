//! The impure and cryptographic ingredients of a signature: a fresh nonce,
//! the current time, and the keyed hash.

use crate::text::hex_fixed;
use crate::text::hex_lower;
use crate::text::lemma_hex_lower_len;
use crypto::mac::Mac;
use vstd::prelude::*;
use vstd::string::*;

verus! {

/// A request nonce: a 128-bit value that is written on the wire as a
/// hyphenated lower-case UUID.
#[derive(Clone, Copy, Debug, PartialEq, Eq, Structural)]
pub struct Nonce {
    value: u128,
}

impl View for Nonce {
    type V = u128;

    closed spec fn view(&self) -> u128 {
        self.value
    }
}

/// The wire form of a 128-bit nonce: its 32 lower-case hexadecimal digits,
/// most significant first, in groups of 8, 4, 4, 4 and 12 joined by hyphens.
pub open spec fn uuid_text(value: u128) -> Seq<char> {
    let d = hex_fixed(value as nat, 32);
    d.subrange(0, 8) + seq!['-'] + d.subrange(8, 12) + seq!['-'] + d.subrange(12, 16) + seq!['-']
        + d.subrange(16, 20) + seq!['-'] + d.subrange(20, 32)
}

/// Whether a 128-bit value carries the version and variant marks of a random
/// (version 4) UUID.
pub open spec fn is_random_uuid(value: u128) -> bool {
    value & 0x0000_0000_0000_f000_c000_0000_0000_0000u128
        == 0x0000_0000_0000_4000_8000_0000_0000_0000u128
}

impl Nonce {
    /// The nonce with the given 128-bit value.
    pub fn from_u128(value: u128) -> (nonce: Nonce)
        ensures
            nonce@ == value,
    {
        Nonce { value }
    }

    /// The 128-bit value of the nonce.
    pub fn as_u128(&self) -> (value: u128)
        ensures
            value == self@,
    {
        self.value
    }

    /// The wire form of the nonce.
    pub fn to_text(&self) -> (text: String)
        ensures
            text@ == uuid_text(self@),
    {
        uuid_string(self.value)
    }
}

/// Trusted: `uuid::Uuid::new_v4`, read as a number with `Uuid::as_u128`.
/// The bits come from the system's random source, so nothing is claimed of
/// them but the version and variant marks that `new_v4` sets on every value.
/// A system without a random source makes the call panic.
#[verifier::external_body]
fn random_uuid() -> (value: u128)
    ensures
        is_random_uuid(value),
{
    uuid::Uuid::new_v4().as_u128()
}

/// Trusted: the `Display` of `uuid::Uuid`, applied to `Uuid::from_u128(value)`.
/// It writes the sixteen bytes, most significant first, as lower-case
/// hexadecimal digits with hyphens after the 8th, 12th, 16th and 20th digit.
#[verifier::external_body]
fn uuid_string(value: u128) -> (text: String)
    ensures
        text@ == uuid_text(value),
{
    uuid::Uuid::from_u128(value).to_string()
}

/// A fresh random nonce. Two calls may return different values.
pub fn nonce() -> (nonce: Nonce)
    ensures
        is_random_uuid(nonce@),
{
    Nonce { value: random_uuid() }
}

/// Trusted: the type `std::time::SystemTime`, a reading of the system
/// clock. Nothing is known of what it holds.
#[verifier::external_type_specification]
#[verifier::external_body]
pub struct ExSystemTime(std::time::SystemTime);

/// Trusted: the type `std::time::SystemTimeError`, which says that one
/// reading of the clock lies before another. Nothing is known of what it
/// holds.
#[verifier::external_type_specification]
#[verifier::external_body]
pub struct ExSystemTimeError(std::time::SystemTimeError);

/// Trusted: `std::time::SystemTime::now`. The reading depends on the clock,
/// so nothing is claimed of it.
#[verifier::external_body]
fn clock() -> std::time::SystemTime {
    std::time::SystemTime::now()
}

/// Trusted: `std::time::SystemTime::duration_since`, asked for the time
/// since `std::time::UNIX_EPOCH`. It fails where the reading lies before
/// the epoch. Nothing is claimed of the outcome.
#[verifier::external_body]
fn since_epoch(time: &std::time::SystemTime) -> Result<
    std::time::Duration,
    std::time::SystemTimeError,
> {
    time.duration_since(std::time::UNIX_EPOCH)
}

/// Trusted: `std::time::Duration::as_secs`, the whole seconds of a
/// duration. Nothing is claimed of the number.
#[verifier::external_body]
fn whole_seconds(elapsed: &std::time::Duration) -> u64 {
    elapsed.as_secs()
}

/// The timestamp for a reading of the clock, given the whole seconds from
/// the epoch to the reading, or nothing where the reading lies before the
/// epoch: such a reading counts as the epoch itself, the earliest time
/// that a timestamp can name.
pub fn timestamp_of(elapsed: Option<u64>) -> (timestamp: u64)
    ensures
        timestamp == match elapsed {
            Some(seconds) => seconds,
            None => 0,
        },
{
    match elapsed {
        Some(seconds) => seconds,
        None => 0,
    }
}

/// The current time in whole seconds since the Unix epoch, by the system
/// clock; zero where the clock is set before the epoch. Two calls may
/// return different values.
pub fn now() -> u64 {
    let time = clock();
    match since_epoch(&time) {
        Ok(elapsed) => timestamp_of(Some(whole_seconds(&elapsed))),
        Err(_) => timestamp_of(None),
    }
}

/// The HMAC-SHA256 authentication code of `message` under `key`: 32 bytes
/// that depend on nothing but the two byte strings.
pub uninterp spec fn hmac_sha256_code(key: Seq<u8>, message: Seq<u8>) -> Seq<u8>;

/// The hash counts its input in bits in 64 bits, and the keyed hash puts one
/// block of 64 bytes before the message: inputs must be shorter than this
/// many bytes.
pub const HMAC_INPUT_LIMIT: u64 = 0x1fff_ffff_ffff_ffc0u64;

/// Whether a key and a message are short enough to be authenticated.
pub open spec fn hmac_accepts(key: Seq<u8>, message: Seq<u8>) -> bool {
    key.len() < HMAC_INPUT_LIMIT && message.len() < HMAC_INPUT_LIMIT
}

/// Trusted: `crypto::hmac::Hmac` over `crypto::sha2::Sha256`, fed through
/// `Mac::input` and read with `Mac::result`. The code is a function of key
/// and message alone and has the 32 bytes of a SHA-256 digest. The hash
/// panics when its bit counter overflows, which the length bound excludes.
#[verifier::external_body]
fn hmac_code(key: &[u8], message: &[u8]) -> (code: Vec<u8>)
    requires
        hmac_accepts(key@, message@),
    ensures
        code@ == hmac_sha256_code(key@, message@),
        code@.len() == 32,
{
    let mut hmac = crypto::hmac::Hmac::new(crypto::sha2::Sha256::new(), key);
    hmac.input(message);
    hmac.result().code().to_vec()
}

/// Trusted: `hex::encode`. Each byte becomes two lower-case hexadecimal
/// digits, high nibble first, in the order of the bytes.
#[verifier::external_body]
fn hex_encode(bytes: &[u8]) -> (text: String)
    ensures
        text@ == hex_lower(bytes@),
{
    hex::encode(bytes)
}

/// The text form of an authentication code: lower-case hexadecimal.
pub fn signature_text(code: &[u8]) -> (text: String)
    ensures
        text@ == hex_lower(code@),
        text@.len() == 2 * code@.len(),
{
    proof {
        lemma_hex_lower_len(code@);
    }
    hex_encode(code)
}

/// The signature of a message: the hexadecimal text of its HMAC-SHA256 code.
pub open spec fn signature_of(key: Seq<u8>, message: Seq<u8>) -> Seq<char> {
    hex_lower(hmac_sha256_code(key, message))
}

/// Signs a byte message with a byte key.
pub fn sign_bytes(key: &[u8], message: &[u8]) -> (signature: String)
    requires
        hmac_accepts(key@, message@),
    ensures
        signature@ == signature_of(key@, message@),
        signature@.len() == 64,
{
    let code = hmac_code(key, message);
    signature_text(code.as_slice())
}

/// Signs the UTF-8 bytes of `msg` with the UTF-8 bytes of `secret`.
pub fn hmac_sha256(secret: &str, msg: &str) -> (signature: String)
    requires
        hmac_accepts(secret.spec_bytes(), msg.spec_bytes()),
    ensures
        signature@ == signature_of(secret.spec_bytes(), msg.spec_bytes()),
        signature@.len() == 64,
{
    sign_bytes(secret.as_bytes(), msg.as_bytes())
}

} // verus!
