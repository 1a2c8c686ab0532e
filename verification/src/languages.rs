//! Pattern catalogues, one module for each language.

pub mod cpp;
