//! Constants shared by the decoders.
use vstd::prelude::*;

verus! {

/// The code of an invalid argument, which every platform served here
/// numbers alike: the error this library reports for a credential whose
/// bytes fail validation.
pub const EINVAL: i32 = 22;

/// The number of group slots in an extended credential record.
pub const XU_NGROUPS: usize = 16;

/// Relies on libc::EINVAL: the platform's code for an invalid argument,
/// which equals `EINVAL` on each platform this library decodes for.
#[verifier::external_body]
pub(crate) fn einval() -> (r: i32)
    ensures
        r == EINVAL,
{
    libc::EINVAL
}

} // verus!
