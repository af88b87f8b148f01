//! Decoding of compact morphological tag codes (`V-AIA-3S`, `N-AFP`, `Adj-NFS-C`)
//! into the grammatical categories of a Greek word.

pub mod components;
pub mod error;
pub mod interlinear;
pub mod parsings;
pub mod text;
pub mod word;
