//! Verified ownership protocol for editable-molecule handles.
//!
//! A molecule object lives in a native chemistry engine and is reached only
//! through a reference-counted opaque pointer.  This crate states and proves
//! the lifecycle discipline around such handles — construction from parsed
//! text, deep cloning, a temporary immutable-typed alias used for rendering,
//! and a consuming conversion to the immutable handle type — against an
//! explicit model of the engine's shared-ownership heap.  An unverified shell
//! performs the actual foreign calls and mirrors these operations one for one.

use vstd::prelude::*;

pub mod graphmol;
pub mod laws;
pub mod native;
pub mod rw_mol;

verus! {

pub use graphmol::ro_mol::ROMol;
pub use graphmol::rw_mol::RWMol;
pub use graphmol::rw_mol::RWMolError;
pub use graphmol::rw_mol::SmartsParse;
pub use native::NativeHeap;

} // verus!
