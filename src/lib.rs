//! Derivations of `Hash` and `PartialEq` for enums that look only at which
//! variant a value holds, never at the data the variant carries.
//!
//! The pipeline is split in three parts: [`descriptor`] holds the plain model
//! of a type definition and the shape check, [`emit`] writes the text of the
//! two implementations, and [`derive`] connects both to `syn` and
//! `proc_macro2`. [`semantics`] states what the emitted implementations
//! compute on values of the type, with the laws that follow.

pub mod descriptor;
pub mod emit;
pub mod semantics;
pub mod derive;

pub use derive::{derive_hash, derive_partial_eq};
