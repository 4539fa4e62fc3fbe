//! Data handed to the page templates. Rendering is the HTTP layer's; the
//! overview page carries no data of its own.

use vstd::prelude::*;

verus! {

/// The overview page, rendered from nothing.
pub struct OverviewTemplate {}

} // verus!
