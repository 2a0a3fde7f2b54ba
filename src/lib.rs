//! A state-overlay code generator for the type-state pattern.
//!
//! Given a type whose operations are only usable in certain states, and the
//! operations annotated with the state each requires and the state it moves
//! to, the library emits marker types, a sealed capability boundary per type,
//! and one narrowly scoped implementation per operation, so that the host
//! type checker rejects every call sequence the annotations do not allow.
//!
//! The example modules hold builders in the shape of that expansion, written
//! out by hand with plainer marker names.
pub mod annotation;
pub mod body;
pub mod complex;
pub mod declaration;
pub mod double;
pub mod error;
pub mod example;
pub mod expand;
pub mod lifetime;
pub mod race;
pub mod registry;
mod sealed_method_builder;
mod sealed_player_builder;
pub mod simple;
pub mod simple_lifetime;
pub mod slots;
pub mod text;
pub mod tokens;
pub mod types;
