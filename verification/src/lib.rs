//! Terms, literals, matchers and triple/quad views for linked data.
//!
//! The crate models the atoms of a graph (identifiers, blank nodes,
//! literals, variables) over any storage of their text, states when two of
//! them are the same term, renders them in the N-Triples family of syntaxes,
//! and describes patterns over them through matchers.
//!
//! * [`term_data`] is the storage of text, [`lexical`] the rules that the
//!   text of each variant obeys, [`model`] what a term is apart from its
//!   storage.
//! * [`iri`], [`bnode`], [`literal`], [`literal_kind`], [`variable`] and
//!   [`term`] are the terms themselves; [`equality`] states the laws of
//!   `==` on them, [`display`] writes them, [`ns`] holds a few well-known
//!   ones.
//! * [`matcher`] describes patterns over terms.
//! * [`triple`] and [`quad`] are the facts, and the views of a triple as a
//!   quad.
//! * [`parser`] pulls quads out of a text.
pub mod bnode;
pub mod display;
pub mod equality;
pub mod error;
pub mod hashing;
pub mod iri;
pub mod lexical;
pub mod literal;
pub mod literal_kind;
pub mod matcher;
pub mod model;
pub mod ns;
pub mod parser;
pub mod quad;
pub mod term;
pub mod term_data;
pub mod text;
pub mod triple;
pub mod variable;
