//! Random material: signing secrets and password salts.
use vstd::prelude::*;

verus! {

/// Whether a byte is an ASCII letter or digit.
pub open spec fn is_alphanumeric(b: u8) -> bool {
    (48 <= b <= 57) || (65 <= b <= 90) || (97 <= b <= 122)
}

/// Relies on rand's `Alphanumeric` distribution, sampled from the thread-local
/// generator: each byte is an ASCII letter or digit, and the infinite sample
/// stream cut at `n` yields exactly `n` bytes.
#[verifier::external_body]
pub(crate) fn random_alphanumeric(n: usize) -> (r: Vec<u8>)
    ensures
        r@.len() == n,
        forall|i: int| 0 <= i < r@.len() ==> is_alphanumeric(#[trigger] r@[i]),
{
    rand::Rng::sample_iter(rand::thread_rng(), &rand::distributions::Alphanumeric).take(n).collect()
}

} // verus!
