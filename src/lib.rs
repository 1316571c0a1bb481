//! Color model library: hex encoding and decoding of 8-bit channels, the
//! CSS color notation grammar, the named-color table, the choice of output
//! notation and the WCAG readability options.

pub mod error;
pub mod hex;
pub mod model;
pub mod names;
pub mod notation;
pub mod syntax;
pub mod text;
pub mod wcag;
