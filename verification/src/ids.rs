//! The two kinds of window identifier.

use vstd::prelude::*;

verus! {

/// The toolkit's own identifier of a window.
///
/// Identifiers are handed out by the toolkit, each once; the library orders
/// and compares them by their number.
#[derive(Clone, Copy, Debug, PartialEq, Eq, Structural, PartialOrd, Ord, Hash)]
pub struct WindowId(pub u64);

/// The identifier that the windowing protocol gives the surface of a window.
#[derive(Clone, Copy, Debug, PartialEq, Eq, Structural, PartialOrd, Ord, Hash)]
pub struct SurfaceId(pub u64);

} // verus!
