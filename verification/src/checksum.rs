//! Content fingerprints of payloads.

use vstd::prelude::*;
use vstd::string::StringSliceAdditionalSpecFns;

use crypto::digest::Digest;
use crypto::sha2::Sha256;

verus! {

/// The SHA-256 digest of `data`, written as 64 lower-case hexadecimal digits.
pub uninterp spec fn sha256_hex(data: Seq<u8>) -> Seq<char>;

/// The number of bytes from which on the digest can no longer count its input
/// in 64 bits.
pub const MAX_DIGEST_INPUT: u64 = 0x2000_0000_0000_0000;

/// The fingerprint recorded for a payload: the digest of its UTF-8 bytes.
pub open spec fn fingerprint_of(payload: Seq<char>) -> Seq<char> {
    sha256_hex(vstd::utf8::encode_utf8(payload))
}

/// Calls `Sha256::new`, `Digest::input` and `Digest::result_str` of the
/// `crypto` crate on `data`. The result is taken to be the SHA-256 digest of
/// exactly these bytes in hexadecimal; the hash itself is not proved here.
/// `input` panics once the bit count of its input leaves 64 bits, so the
/// length is bounded.
#[verifier::external_body]
fn sha256_hex_digest(data: &[u8]) -> (hex: String)
    requires
        data@.len() < MAX_DIGEST_INPUT,
    ensures
        hex@ == sha256_hex(data@),
{
    let mut hasher = Sha256::new();
    hasher.input(data);
    hasher.result_str()
}

/// Fingerprints a payload. `None` is returned for a payload too long to be
/// digested, and for no other.
pub fn fingerprint(payload: &str) -> (hash: Option<String>)
    ensures
        hash is Some <==> payload.spec_bytes().len() < MAX_DIGEST_INPUT,
        hash is Some ==> hash->0@ == fingerprint_of(payload@),
{
    let bytes = payload.as_bytes();
    if (bytes.len() as u64) < MAX_DIGEST_INPUT {
        Some(sha256_hex_digest(bytes))
    } else {
        None
    }
}

/// Whether `text` is one JSON value, as `serde_json` reads it.
pub uninterp spec fn is_json(text: Seq<char>) -> bool;

/// Calls `serde_json::from_str` for a `serde_json::Value` and tells whether
/// it read one. The parser's grammar is taken as it is, under the name
/// `is_json`.
#[verifier::external_body]
fn reads_as_json(text: &str) -> (read: bool)
    ensures
        read == is_json(text@),
{
    serde_json::from_str::<serde_json::Value>(text).is_ok()
}

/// What is known of a command's payload once it has been examined.
#[derive(Debug)]
pub enum Stamp {
    /// The command carries no payload.
    Absent,
    /// The payload cannot be committed: it is no JSON value, or too long to
    /// be digested.
    Unreadable,
    /// The fingerprint of the payload.
    Fingerprint(String),
}

pub enum StampView {
    Absent,
    Unreadable,
    Fingerprint(Seq<char>),
}

impl View for Stamp {
    type V = StampView;

    open spec fn view(&self) -> StampView {
        match *self {
            Stamp::Absent => StampView::Absent,
            Stamp::Unreadable => StampView::Unreadable,
            Stamp::Fingerprint(hash) => StampView::Fingerprint(hash@),
        }
    }
}

impl StampView {
    /// The checksum that a revision records for the payload.
    pub open spec fn checksum(self) -> Option<Seq<char>> {
        match self {
            StampView::Fingerprint(hash) => Some(hash),
            _ => None,
        }
    }
}

/// The stamp of a payload.
pub open spec fn stamp_of(payload: Option<Seq<char>>) -> StampView {
    match payload {
        None => StampView::Absent,
        Some(text) => if is_json(text) && vstd::utf8::encode_utf8(text).len() < MAX_DIGEST_INPUT {
            StampView::Fingerprint(fingerprint_of(text))
        } else {
            StampView::Unreadable
        },
    }
}

/// Examines the payload of a command.
pub fn stamp(payload: &Option<String>) -> (result: Stamp)
    ensures
        result@ == stamp_of(crate::domain::text_of(*payload)),
{
    match payload {
        None => Stamp::Absent,
        Some(text) => {
            if reads_as_json(text.as_str()) {
                match fingerprint(text.as_str()) {
                    Some(hash) => Stamp::Fingerprint(hash),
                    None => Stamp::Unreadable,
                }
            } else {
                Stamp::Unreadable
            }
        },
    }
}

} // verus!
