//! Generates Rust bindings from a decoded Cap'n Proto code generator request.
//!
//! The request is a flat list of schema nodes and a list of files to
//! generate ([`schema`]). [`request::generate_files`] indexes the nodes,
//! records for each node the path of its module ([`scope`]), and writes for
//! each requested file the code of its nodes ([`node`]) into a tree of
//! indented text ([`text`]), which is rendered to a string at the end.
//!
//! Every function states what it returns over a mathematical model of its
//! arguments: a [`text::FormattedText`] is modelled by a [`text::TextTree`],
//! a scope map by a map from node id to path segments ([`scope::paths`]).
//! A function that can fail states for which inputs it fails, and with which
//! [`error::GenError`].
pub mod accessors;
pub mod cycles;
pub mod error;
pub mod getter;
pub mod ident;
pub mod interfaces;
pub mod nesting;
pub mod node;
pub mod request;
pub mod schema;
pub mod scope;
pub mod setter;
pub mod strings;
pub mod structs;
pub mod text;
pub mod types;
pub mod which;
pub mod zeroing;
