//! Effectful draws from the process-global generator. The generator is
//! thread-local and automatically seeded; every draw advances it, so two
//! calls on the same inputs may return different values. Nothing is
//! promised of a drawn value beyond the requested range.

use vstd::prelude::*;
use vstd::string::StringExecFns;
use rand::Rng;

verus! {

/// Relies on `rand::thread_rng` and `rand::Rng::gen`: one draw of a
/// uniformly distributed `i64` from the thread-local generator. The value
/// is random, so nothing is promised of it.
#[verifier::external_body]
fn random_i64() -> i64 {
    rand::thread_rng().gen()
}

/// Relies on `rand::Rng::gen_range` on the half-open range `low..high`:
/// for integers the drawn value lies in `[low, high)`. The call panics on
/// an empty range, which the precondition rules out.
#[verifier::external_body]
fn random_i64_in_range(low: i64, high: i64) -> (r: i64)
    requires
        low < high,
    ensures
        low <= r < high,
{
    rand::thread_rng().gen_range(low..high)
}

/// Draws a signed integer spanning the full 64-bit range from the
/// process-global generator, advancing its state.
pub fn next_int() -> i64 {
    random_i64()
}

/// Draws an integer uniformly from `[low, high)` from the process-global
/// generator, advancing its state.
///
/// Succeeds exactly when `low < high`; an empty range is a recoverable
/// failure carrying a descriptive message, never a value outside the
/// range and never an abort.
pub fn gen_int_range(low: i64, high: i64) -> (r: Result<i64, String>)
    ensures
        r is Ok <==> low < high,
        r is Ok ==> low <= r->Ok_0 < high,
        r is Err ==> r->Err_0@ == "expected low < high"@,
{
    if low < high {
        Ok(random_i64_in_range(low, high))
    } else {
        Err(String::from_str("expected low < high"))
    }
}

} // verus!
