//! Core library for ETS-Vibes: exposes the build's version identifier.

use vstd::prelude::*;

verus! {

/// The version identifier of this build, as a sequence of characters.
/// It is fixed when the library is built and never changes at run time.
pub open spec fn spec_version() -> Seq<char> {
    "0.1.0"@
}

/// Returns the build's version identifier.
///
/// The result is always the same non-empty string: the version this
/// library was built as.
pub fn version() -> (r: &'static str)
    ensures
        r@ == spec_version(),
        r@.len() > 0,
{
    proof {
        reveal_strlit("0.1.0");
    }
    "0.1.0"
}

/// The version is fixed within a build: any two values that equal the
/// build's version identifier are equal to each other, so repeated calls
/// of `version` all return the same string.
pub proof fn lemma_version_stable(a: Seq<char>, b: Seq<char>)
    requires
        a == spec_version(),
        b == spec_version(),
    ensures
        a == b,
{
}

} // verus!
