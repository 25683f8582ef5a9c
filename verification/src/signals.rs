//! Signal numbers the broker will deliver.

use vstd::prelude::*;

verus! {

/// A POSIX signal number the host accepts: on Linux, 1 through 31.
pub open spec fn valid_signal(n: i32) -> bool {
    1 <= n <= 31
}

/// Relies on `nix::sys::signal::Signal::try_from`, which accepts exactly the
/// numbers of the named signals; on Linux those are 1 through 31.
#[verifier::external_body]
pub(crate) fn signal_number_accepted(n: i32) -> (r: bool)
    ensures
        r == valid_signal(n),
{
    nix::sys::signal::Signal::try_from(n).is_ok()
}

} // verus!
