//! Interpretation of DICOM data sets as streams of tokens, and the
//! row-level logic that turns the standard's data dictionary table into
//! dictionary source entries.
use vstd::prelude::*;

pub mod header;
pub mod token;
pub mod element;
pub mod stream;
pub mod laws;
pub mod dictionary;
pub mod codegen;

verus! {

} // verus!
