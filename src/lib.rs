//! Build-time acquisition logic and binding-symbol normalisation for the
//! native CEC library: which way the library is obtained, which ABI revision
//! is active, and how generated constant names are made revision-independent.

pub mod fetch;
pub mod gate;
pub mod header;
pub mod normalize;
pub mod resolver;
pub mod text;
pub mod vendored;
pub mod version;

pub use fetch::BuildKind;
