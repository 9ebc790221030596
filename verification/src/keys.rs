//! The boundary to the key-encoding primitives.
//!
//! Private keys live in memory as `russh_keys::PrivateKey` values, opaque to
//! the library; on disk they are algorithm-tagged binary blobs. What the
//! primitives compute is a function of the blob alone, so the contracts here
//! speak of it through the named results `blob_decodes`, `pubkey_of` and
//! `cipher_of`, and everything downstream is proved against those names.

use vstd::prelude::*;

verus! {

#[verifier::external_type_specification]
#[verifier::external_body]
pub struct ExPrivateKey(russh_keys::PrivateKey);

/// Whether the key-encoding primitive accepts this blob (without a
/// password), a function of the bytes alone.
pub uninterp spec fn blob_decodes(blob: Seq<u8>) -> bool;

/// The base64 form of the public key derived from this blob.
pub uninterp spec fn pubkey_of(blob: Seq<u8>) -> Seq<char>;

/// The algorithm name the key in this blob is tagged with.
pub uninterp spec fn cipher_of(blob: Seq<u8>) -> Seq<char>;

/// Decodes a stored blob into the in-memory pair, its base64 public key and
/// its algorithm name.
///
/// Relies on russh_keys: `pkcs8::decode_pkcs8` (with no password) for the
/// pair, `PublicKeyBase64::public_key_base64` for the public key, and
/// `PrivateKey::algorithm` with `Algorithm::as_str` for the name. Each is a
/// function of the blob alone.
#[verifier::external_body]
pub(crate) fn decode_stored_blob(blob: &Vec<u8>) -> (r: Option<(
    russh_keys::PrivateKey,
    String,
    String,
)>)
    ensures
        r is Some <==> blob_decodes(blob@),
        r matches Some(t) ==> t.1@ == pubkey_of(blob@) && t.2@ == cipher_of(blob@),
{
    match russh_keys::pkcs8::decode_pkcs8(blob.as_slice(), None) {
        Ok(key) => {
            let pubkey = russh_keys::PublicKeyBase64::public_key_base64(&key);
            let cipher = key.algorithm().as_str().to_string();
            Some((key, pubkey, cipher))
        },
        Err(_) => None,
    }
}

/// Encodes an in-memory pair into its on-disk blob, or nothing for an
/// algorithm the encoding does not cover.
///
/// Relies on russh_keys `pkcs8::encode_pkcs8`: when it encodes a key at all,
/// the blob it writes is one its own `pkcs8::decode_pkcs8` reads back.
#[verifier::external_body]
pub(crate) fn encode_private_key(key: &russh_keys::PrivateKey) -> (r: Option<Vec<u8>>)
    ensures
        r matches Some(b) ==> blob_decodes(b@),
{
    russh_keys::pkcs8::encode_pkcs8(key).ok()
}

/// Draws a fresh ed25519 pair from the cryptographic generator and encodes
/// it into its on-disk blob.
///
/// Relies on russh_keys `key::safe_rng`, ssh_key `PrivateKey::random` and
/// russh_keys `pkcs8::encode_pkcs8`: the key is random, so nothing is
/// assumed of its value, but it is an ed25519 key, so the blob it encodes
/// to decodes back with `pkcs8::decode_pkcs8` and is tagged with the
/// ed25519 algorithm name.
#[verifier::external_body]
pub(crate) fn fresh_ed25519_blob() -> (r: Option<Vec<u8>>)
    ensures
        r matches Some(b) ==> blob_decodes(b@) && cipher_of(b@) == "ssh-ed25519"@,
{
    let key = russh_keys::PrivateKey::random(
        &mut russh_keys::key::safe_rng(),
        russh_keys::Algorithm::Ed25519,
    ).ok()?;
    russh_keys::pkcs8::encode_pkcs8(&key).ok()
}

/// Reads a textual secret key (as found in a key file), deciphering it with
/// the password if one is given.
///
/// Relies on russh_keys `decode_secret_key`; whether the text parses depends
/// on the text and password alone, but nothing downstream needs that, so
/// nothing is assumed beyond the shape of the result.
#[verifier::external_body]
pub(crate) fn decode_secret_key_text(
    text: &str,
    password: Option<&str>,
) -> (r: Option<russh_keys::PrivateKey>)
{
    russh_keys::decode_secret_key(text, password).ok()
}

} // verus!
