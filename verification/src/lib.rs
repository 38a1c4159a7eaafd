//! Safe, verified companion layer for a native 2D graphics engine.
//!
//! The crate has two halves. One mirrors the build orchestration of the
//! native library: deriving the meta-build (`gn`) argument list from a build
//! configuration, deriving linker directives, and parsing preprocessor
//! definitions out of generated ninja files. The other models the small
//! value types of the safe wrapper API (font styles, stroke records, rotated
//! scale transforms) as plain data with exact contracts.

pub mod cargo;
pub mod definitions;
pub mod font_style;
pub mod graphics;
pub mod paint;
pub mod rsxform;
pub mod scalar;
pub mod skia;
pub mod stroke_rec;
pub mod strutil;
