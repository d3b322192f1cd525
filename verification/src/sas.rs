//! Shared-access-signature tokens: the signing input is the
//! percent-encoded resource URI and the expiry joined by a newline; the
//! signature is the base64 of an HMAC-SHA256 over it; the token carries
//! the encoded URI, signature, expiry and key name.

use vstd::prelude::*;
use vstd::utf8::encode_utf8;
use base64::Engine;
use hmac::Mac;
use crate::error::SbError;
use crate::strutil::{dec_of_u64, dec_spec};

verus! {

/// What `urlencoding::encode` returns for the text.
pub uninterp spec fn percent_encoded(s: Seq<char>) -> Seq<char>;

/// Relies on urlencoding::encode: percent-encodes every byte except
/// ASCII alphanumerics and `-`, `_`, `.`, `~`; a pure function of the
/// text.
#[verifier::external_body]
fn percent_encode(s: &str) -> (r: String)
    ensures
        r@ == percent_encoded(s@),
{
    urlencoding::encode(s).into_owned()
}

/// What HMAC-SHA256 produces for a key and message.
pub uninterp spec fn hmac_sha256_of(key: Seq<u8>, msg: Seq<u8>) -> Seq<u8>;

/// Relies on hmac::Hmac with sha2::Sha256: a keyed MAC over the message.
/// HMAC accepts keys of any length, so construction cannot fail; the
/// 32-byte digest is a pure function of key and message.
#[verifier::external_body]
fn hmac_sha256(key: &[u8], msg: &[u8]) -> (r: Vec<u8>)
    ensures
        r@ == hmac_sha256_of(key@, msg@),
        r@.len() == 32,
{
    let mut mac = <hmac::Hmac<sha2::Sha256> as hmac::Mac>::new_from_slice(key)
        .expect("HMAC accepts keys of any length");
    mac.update(msg);
    mac.finalize().into_bytes().to_vec()
}

/// What standard base64 encoding produces for the bytes.
pub uninterp spec fn base64_of(b: Seq<u8>) -> Seq<char>;

/// Relies on base64's general_purpose::STANDARD engine: the standard
/// alphabet with padding; a pure function of the bytes.
#[verifier::external_body]
fn base64_encode(b: &[u8]) -> (r: String)
    ensures
        r@ == base64_of(b@),
{
    base64::engine::general_purpose::STANDARD.encode(b)
}

/// Relies on chrono::Utc::now: the current UTC time in whole seconds
/// since the Unix epoch. Nothing is assumed of the value.
#[verifier::external_body]
fn now_epoch_seconds() -> i64 {
    chrono::Utc::now().timestamp()
}

/// The exact text signed: encoded URI, newline, decimal expiry.
pub open spec fn signing_input_spec(resource_uri: Seq<char>, expiry: int) -> Seq<char> {
    percent_encoded(resource_uri) + "\n"@ + dec_spec(expiry)
}

/// The exact token text for a resource, key pair and expiry instant.
pub open spec fn sas_token_spec(
    resource_uri: Seq<char>,
    key_name: Seq<char>,
    key: Seq<char>,
    expiry: int,
) -> Seq<char> {
    "SharedAccessSignature sr="@ + percent_encoded(resource_uri) + "&sig="@ + percent_encoded(
        base64_of(
            hmac_sha256_of(encode_utf8(key), encode_utf8(signing_input_spec(resource_uri, expiry))),
        ),
    ) + "&se="@ + dec_spec(expiry) + "&skn="@ + percent_encoded(key_name)
}

/// Build the token for a fixed expiry instant (UTC epoch seconds).
pub fn sign_at(resource_uri: &str, key_name: &str, key: &str, expiry_epoch: u64) -> (r: String)
    ensures
        r@ == sas_token_spec(resource_uri@, key_name@, key@, expiry_epoch as int),
{
    let enc_uri = percent_encode(resource_uri);
    let exp = dec_of_u64(expiry_epoch);
    let mut signing = enc_uri.clone();
    signing.append("\n");
    signing.append(exp.as_str());
    proof {
        assert(signing@ =~= signing_input_spec(resource_uri@, expiry_epoch as int));
    }
    let digest = hmac_sha256(key.as_bytes(), signing.as_str().as_bytes());
    let sig = base64_encode(digest.as_slice());
    let enc_sig = percent_encode(sig.as_str());
    let enc_kn = percent_encode(key_name);
    let mut token = String::from_str("SharedAccessSignature sr=");
    token.append(enc_uri.as_str());
    token.append("&sig=");
    token.append(enc_sig.as_str());
    token.append("&se=");
    token.append(exp.as_str());
    token.append("&skn=");
    token.append(enc_kn.as_str());
    proof {
        assert(token@ =~= sas_token_spec(resource_uri@, key_name@, key@, expiry_epoch as int));
    }
    token
}

/// Exactly what signing with a given clock reading returns: a validity
/// that cannot be added to any instant is refused outright; an expiry
/// instant `now + expiry_seconds` outside `[0, i64::MAX]` is refused;
/// every other reading yields precisely the token for that instant.
pub open spec fn sign_from_now_result(
    now: int,
    resource_uri: Seq<char>,
    key_name: Seq<char>,
    key: Seq<char>,
    expiry_seconds: u64,
    r: Result<String, SbError>,
) -> bool {
    if expiry_seconds > i64::MAX {
        r matches Err(e) && e matches SbError::Validation(m) && m@
            == "Token validity is too long"@
    } else if !(0 <= now + expiry_seconds <= i64::MAX) {
        r matches Err(e) && e matches SbError::Validation(m) && m@
            == "Token expiry is out of range"@
    } else {
        r matches Ok(t) && t@ == sas_token_spec(resource_uri, key_name, key, now
            + expiry_seconds)
    }
}

/// Build a token expiring `expiry_seconds` after the instant `now`.
///
/// This is the whole of the decision: for every clock reading the
/// result is fixed — the exact token for `now + expiry_seconds`, or the
/// named validation error when that instant cannot be represented.
pub fn sign_from_now(
    now: i64,
    resource_uri: &str,
    key_name: &str,
    key: &str,
    expiry_seconds: u64,
) -> (r: Result<String, SbError>)
    ensures
        sign_from_now_result(now as int, resource_uri@, key_name@, key@, expiry_seconds, r),
{
    if expiry_seconds > (i64::MAX as u64) {
        return Err(SbError::Validation(String::from_str("Token validity is too long")));
    }
    let expiry = match now.checked_add(expiry_seconds as i64) {
        Some(e) => e,
        None => {
            return Err(SbError::Validation(String::from_str("Token expiry is out of range")));
        }
    };
    if expiry < 0 {
        return Err(SbError::Validation(String::from_str("Token expiry is out of range")));
    }
    Ok(sign_at(resource_uri, key_name, key, expiry as u64))
}

/// Build a token expiring `expiry_seconds` from now.
///
/// The clock reading itself cannot be promised, so the contract says:
/// for some reading `n`, the result is exactly what `sign_from_now`
/// fixes for `n` — the token for `n + expiry_seconds`, or one of its
/// two named validation errors.
pub fn generate_sas_token(
    resource_uri: &str,
    key_name: &str,
    key: &str,
    expiry_seconds: u64,
) -> (r: Result<String, SbError>)
    ensures
        exists|n: int|
            sign_from_now_result(n, resource_uri@, key_name@, key@, expiry_seconds, r),
{
    let now = now_epoch_seconds();
    let r = sign_from_now(now, resource_uri, key_name, key, expiry_seconds);
    proof {
        assert(sign_from_now_result(
            now as int,
            resource_uri@,
            key_name@,
            key@,
            expiry_seconds,
            r,
        ));
    }
    r
}

} // verus!
