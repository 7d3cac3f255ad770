//! Synthesis of accessor and constructor methods for annotated records.
//!
//! A [`record::Record`] is an ordered list of typed fields, each with its
//! visibility, together with the annotations attached to the record and to its
//! fields. Five annotations are understood: `getters`, `setters` and
//! `constructor` on a record, `get` and `set` on a field. Their argument lists
//! arrive as generic tokens ([`token::ArgToken`]); the library classifies them,
//! resolves them into configurations, selects fields and describes the methods
//! to generate ([`method::GeneratedMethod`]).

pub mod accessors;
pub mod attribute_parser;
pub mod constructor;
pub mod error;
pub mod helpers;
pub mod laws;
pub mod method;
pub mod modifier;
pub mod new_from_args;
pub mod record;
pub mod token;
