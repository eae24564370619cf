//! Type-directed translation of an annotated program into a flat textual
//! intermediate representation.
//!
//! The program is a syntax tree ([`ast`]) with the query tables that the
//! analyses before the translation filled ([`tables`], [`types`]). Every
//! encoder returns the text of what it translates or the failure that
//! stops it, and records in the translation context ([`context`]) the
//! abstract functions and types it observes. What each encoder returns
//! and records is stated as an [`outcome::Outcome`]: the modules
//! [`expr_spec`] and [`item_spec`] and the specification functions beside
//! the encoders define it for every node. [`process`] translates a whole
//! program; [`laws`] holds what is proved of the translation as a whole,
//! and [`subset`] that a construct outside the translated subset fails the
//! definition that holds it, at whatever depth it stands.

pub mod adjust;
pub mod ast;
pub mod block_enc;
pub mod call;
pub mod context;
pub mod decls;
pub mod defs;
pub mod errors;
pub mod expr_enc;
pub mod expr_spec;
pub mod expr_variant;
pub mod item_enc;
pub mod item_spec;
pub mod laws;
pub mod mangle;
pub mod order;
pub mod outcome;
pub mod pat_enc;
pub mod process;
pub mod registry;
pub mod subset;
pub mod tables;
pub mod text;
pub mod ty_enc;
pub mod types;
