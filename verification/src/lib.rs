//! Conversion of CAD drawings into element definitions for a schematic
//! editor: the discrete part of the work.
//!
//! The library classifies the entities of a drawing and counts them,
//! strips the formatting codes of rich texts and infers their font, derives
//! the alignment of a text from its justification codes, and builds the
//! document tree of the converted symbol. Coordinates are floating-point
//! numbers and stay with the caller, who hands them over as formatted
//! values where the tree needs them.

pub mod alignment;
pub mod chars;
pub mod color;
pub mod definition;
pub mod digits;
pub mod dynamictext;
pub mod entity;
pub mod font;
pub mod ident;
pub mod mtext;
pub mod options;
pub mod report;
pub mod stats;
pub mod xml;

pub use crate::definition::Definition;
pub use crate::dynamictext::{DTextBuilder, DynamicText};
pub use crate::font::extract_mtext_font;
pub use crate::mtext::normalize_mtext;
pub use crate::options::ConversionOptions;
pub use crate::report::{ConversionError, ConversionResult};
pub use crate::stats::ConversionStats;
