//! Random client application ids, which also serve as search correlation ids.

use vstd::prelude::*;
use rand::Rng;
use crate::page::push_char;

verus! {

/// Number of characters of a generated client application id.
pub const CLIENT_APP_ID_LEN: usize = 7;

/// `c` is an ASCII letter or digit.
pub open spec fn is_alphanumeric(c: char) -> bool {
    ('A' <= c && c <= 'Z') || ('a' <= c && c <= 'z') || ('0' <= c && c <= '9')
}

/// Relies on `rand::distributions::Alphanumeric` sampled from `rand::thread_rng()`:
/// each sample is one byte of `A-Z`, `a-z` or `0-9`.
#[verifier::external_body]
fn sample_alphanumeric() -> (r: u8)
    ensures
        is_alphanumeric(r as char),
{
    rand::thread_rng().sample(rand::distributions::Alphanumeric)
}

/// A fresh random id of `CLIENT_APP_ID_LEN` ASCII letters and digits.
pub fn generate_client_app_id() -> (r: String)
    ensures
        r@.len() == CLIENT_APP_ID_LEN,
        forall|i: int| 0 <= i < r@.len() ==> is_alphanumeric(#[trigger] r@[i]),
{
    let mut r = String::new();
    let mut i: usize = 0;
    while i < CLIENT_APP_ID_LEN
        invariant
            i <= CLIENT_APP_ID_LEN,
            r@.len() == i,
            forall|j: int| 0 <= j < r@.len() ==> is_alphanumeric(#[trigger] r@[j]),
        decreases CLIENT_APP_ID_LEN - i,
    {
        let b = sample_alphanumeric();
        push_char(&mut r, b as char);
        i = i + 1;
    }
    r
}

} // verus!
