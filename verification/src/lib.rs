//! Layered canvas composition and layout.
//!
//! A [`Canvas`] is an ordered stack of layers. Each layer reports a size
//! policy and a position policy; rendering resolves those policies into
//! pixel geometry and emits one nested vector-graphics document.

pub mod adt;
pub mod background;
pub mod configs;
pub mod foundation;
pub mod image;
pub mod layers;
pub mod markup;
pub mod shape;
pub mod source;
pub mod svg;
pub mod text;

pub use svg::Canvas;
