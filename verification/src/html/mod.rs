//! HTML elements and their attributes.
pub mod attribute;
pub mod class;
pub mod element;
pub mod style;
