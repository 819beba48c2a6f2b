//! The proxy secret: the infrastructure secret the key derivation binds to.
//!
//! The secret is a byte string of 32 to 512 bytes.  Its first four bytes,
//! read little-endian, are the key selector advertised in nonce packets.
//! Obtaining the secret is the caller's work (a cache file, then a
//! download); what counts as usable is decided here.

use vstd::prelude::*;

use crate::consts::{SECRET_CACHE_MAX_AGE_SECS, SECRET_MIN_LEN};
use crate::errors::MeError;
use crate::le::{le_to_u32, read_u32_le};

verus! {

/// The key selector of a secret: its first four bytes little-endian, or
/// zero where the secret is shorter than that.
pub open spec fn key_selector_of(secret: Seq<u8>) -> u32 {
    if secret.len() >= 4 {
        le_to_u32(secret)
    } else {
        0
    }
}

/// Read the key selector of `secret`.
pub fn key_selector(secret: &Vec<u8>) -> (r: u32)
    ensures
        r == key_selector_of(secret@),
{
    if secret.len() >= 4 {
        let r = read_u32_le(secret, 0);
        assert(secret@.skip(0) =~= secret@);
        r
    } else {
        0
    }
}

/// Whether a cached secret file may be reused: modified within the last
/// day and at least the minimum length.
pub fn cached_secret_usable(age_secs: u64, len: usize) -> (r: bool)
    ensures
        r == (age_secs < SECRET_CACHE_MAX_AGE_SECS && len >= SECRET_MIN_LEN),
{
    age_secs < SECRET_CACHE_MAX_AGE_SECS && len >= SECRET_MIN_LEN
}

/// Whether a downloaded body is an acceptable secret: at least the
/// minimum length.  Anything shorter is a `ProxySecret` error.
pub fn validate_proxy_secret(data: &Vec<u8>) -> (r: Result<(), MeError>)
    ensures
        data@.len() >= SECRET_MIN_LEN ==> r == Ok::<(), MeError>(()),
        data@.len() < SECRET_MIN_LEN ==> r == Err::<(), MeError>(MeError::ProxySecret),
{
    if data.len() >= SECRET_MIN_LEN {
        Ok(())
    } else {
        Err(MeError::ProxySecret)
    }
}

/// Whether a secret is long enough to authenticate a middle-proxy
/// connection.
pub fn secret_long_enough(secret: &Vec<u8>) -> (r: bool)
    ensures
        r == (secret@.len() >= SECRET_MIN_LEN),
{
    secret.len() >= SECRET_MIN_LEN
}

} // verus!
