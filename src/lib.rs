//! Importing dropped asset files into a project.
//!
//! The library decides what an import does: where the assets directory is,
//! which entries get copied and under which name, how the importer tool is
//! invoked, and what is reported back. The filesystem and process work is
//! performed by the caller, which feeds the outcome of each action back in.
use vstd::prelude::*;

pub mod import;
pub mod laws;
pub mod paths;
pub mod text;

verus! {

} // verus!
