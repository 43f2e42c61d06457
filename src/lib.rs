//! Hub: a single place from which the projects of an ecosystem take their
//! shared third-party dependencies.
//!
//! Optional re-exports are switched on one by one; this build switches on
//! none of them, so the library reports its release and an empty selection.
use vstd::prelude::*;

verus! {

/// The release of the library, as `major.minor.patch`.
pub open spec fn release() -> Seq<char> {
    "0.3.0"@
}

/// The names of the optional re-exports that this build switches on, in the
/// order in which they are listed: none.
pub open spec fn selected_features() -> Seq<Seq<char>> {
    Seq::empty()
}

/// Returns the library's release.
pub fn version() -> (r: &'static str)
    ensures
        r@ == release(),
        r@.len() > 0,
{
    proof {
        reveal_strlit("0.3.0");
    }
    "0.3.0"
}

/// Returns the names of the optional re-exports that this build switches on.
pub fn enabled_features() -> (r: Vec<&'static str>)
    ensures
        r@.len() == selected_features().len(),
        forall|i: int| 0 <= i < r@.len() ==> r@[i]@ == selected_features()[i],
{
    let features: Vec<&'static str> = Vec::new();
    features
}

} // verus!
