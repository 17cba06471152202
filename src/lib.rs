//! Derives a companion builder for a record type: a normalized description of
//! the declaration goes in, the source text of the builder type, its methods
//! and the factory method comes out.
pub mod declaration;
pub mod fragments;
pub mod assemble;
pub mod semantics;
pub mod syntax;
