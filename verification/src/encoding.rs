//! Digests and base64: named results for the outside hash and encoder,
//! the OBS authentication string built from them, and the data URL that
//! carries an icon to the configuration surface.

use vstd::prelude::*;
use vstd::utf8::encode_utf8;
use base64::Engine;
use sha2::Digest;
use crate::strutil::{str_eq, ends_with, has_suffix};

verus! {

/// The SHA-256 digest of a byte sequence, named: it depends on the bytes
/// alone.
pub uninterp spec fn sha256_of(data: Seq<u8>) -> Seq<u8>;

/// The standard base64 encoding of a byte sequence, with padding, named:
/// it depends on the bytes alone.
pub uninterp spec fn base64_of(data: Seq<u8>) -> Seq<char>;

/// Relies on sha2's `Sha256`: a 32-byte digest of the input bytes alone.
#[verifier::external_body]
pub(crate) fn sha256(data: &[u8]) -> (r: Vec<u8>)
    ensures
        r@ == sha256_of(data@),
        r@.len() == 32,
{
    sha2::Sha256::digest(data).to_vec()
}

/// Relies on base64's `STANDARD` engine: the padded encoding of the input
/// bytes alone, four characters for every started three bytes.
#[verifier::external_body]
pub(crate) fn base64_encode(data: &[u8]) -> (r: String)
    ensures
        r@ == base64_of(data@),
        r@.len() == 4 * ((data@.len() + 2) / 3),
{
    base64::engine::general_purpose::STANDARD.encode(data)
}

/// The OBS WebSocket authentication string:
/// base64(SHA256(base64(SHA256(password + salt)) + challenge)).
pub open spec fn spec_obs_auth(
    password: Seq<char>,
    challenge: Seq<char>,
    salt: Seq<char>,
) -> Seq<char> {
    base64_of(sha256_of(encode_utf8(base64_of(sha256_of(encode_utf8(password + salt))) + challenge)))
}

/// Builds the OBS WebSocket authentication string from the password and
/// the challenge and salt of the Hello message: 44 characters, the padded
/// base64 of a 32-byte digest.
pub fn generate_obs_auth(password: &str, challenge: &str, salt: &str) -> (r: String)
    ensures
        r@ == spec_obs_auth(password@, challenge@, salt@),
        r@.len() == 44,
{
    let mut pass_salt = password.to_owned();
    pass_salt.append(salt);
    let hash1 = sha256(pass_salt.as_str().as_bytes());
    let mut hash1_challenge = base64_encode(hash1.as_slice());
    hash1_challenge.append(challenge);
    let hash2 = sha256(hash1_challenge.as_str().as_bytes());
    base64_encode(hash2.as_slice())
}

/// The MIME type a file name's extension declares: PNG, JPEG, GIF or WebP
/// images, or a plain octet stream.
pub open spec fn spec_mime_for(name: Seq<char>) -> Seq<char> {
    if has_suffix(name, ".png"@) {
        "image/png"@
    } else if has_suffix(name, ".jpg"@) || has_suffix(name, ".jpeg"@) {
        "image/jpeg"@
    } else if has_suffix(name, ".gif"@) {
        "image/gif"@
    } else if has_suffix(name, ".webp"@) {
        "image/webp"@
    } else {
        "application/octet-stream"@
    }
}

/// Names the MIME type of an icon file by its extension.
pub fn mime_for_filename(name: &str) -> (r: &'static str)
    ensures
        r@ == spec_mime_for(name@),
{
    if ends_with(name, ".png") {
        "image/png"
    } else if ends_with(name, ".jpg") || ends_with(name, ".jpeg") {
        "image/jpeg"
    } else if ends_with(name, ".gif") {
        "image/gif"
    } else if ends_with(name, ".webp") {
        "image/webp"
    } else {
        "application/octet-stream"
    }
}

/// The data URL carrying an icon: `data:<mime>;base64,<data>`.
pub open spec fn spec_data_url(name: Seq<char>, data: Seq<u8>) -> Seq<char> {
    "data:"@ + spec_mime_for(name) + ";base64,"@ + base64_of(data)
}

/// Builds the data URL of an icon file for the configuration surface.
pub fn icon_data_url(name: &str, data: &[u8]) -> (r: String)
    ensures
        r@ == spec_data_url(name@, data@),
{
    let mut s = String::from_str("data:");
    s.append(mime_for_filename(name));
    s.append(";base64,");
    s.append(base64_encode(data).as_str());
    proof {
        assert(s@ =~= spec_data_url(name@, data@));
    }
    s
}

} // verus!
