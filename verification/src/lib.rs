//! Turns the documents that describe crafting recipes into Kotlin source.
//!
//! A document is a tree of values ([`document`]), read from JSON text
//! ([`reader`]). From a document one recipe is read ([`recipe`]): the item made,
//! how many of it, and how many of which items it uses up ([`tally`]). The
//! recipes are written out as a Kotlin function that returns the list of them
//! ([`emit`]). [`convert`] goes the whole way, from the texts to the source.
//! [`laws`] states what holds of every document and every conversion.

pub mod convert;
pub mod document;
pub mod emit;
pub mod laws;
pub mod lists;
pub mod reader;
pub mod recipe;
pub mod tally;
pub mod text;
