//! The closed set of page identifiers.

use vstd::prelude::*;

verus! {

/// Identifier of one of the six content sections of the site.
///
/// The set is closed and known at build time: the content registry is
/// total over it, and navigation targets are always drawn from it.
#[derive(Clone, Copy, Debug, PartialEq, Eq, Structural)]
pub enum Page {
    About,
    Education,
    Certifications,
    Experience,
    Projects,
    Contributions,
}

} // verus!
