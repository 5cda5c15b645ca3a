//! A verified lexical analyser for a small scripting language.
//!
//! The scanner walks source text once, left to right, and produces either a
//! completed [`syntax::TokenStream`] or the full ordered list of lexical
//! diagnostics found in that text. Its behaviour is pinned down by the
//! mathematical scan in [`syntax::lexing`], which every contract refers to.

pub mod syntax;
