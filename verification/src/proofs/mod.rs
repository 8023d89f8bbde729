//! Theorems about the library's functions, stated over their mathematical
//! models and proved once for every input.

pub mod options;
pub mod saves;
