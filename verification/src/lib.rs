//! Runtime support for glue code that bridges a host language to a
//! component-style canonical ABI.
//!
//! The crate models and verifies the delicate parts of such a runtime:
//! the lifecycle of cross-boundary resource handles ([`resource`]) and the
//! heap-boxed representation slots backing locally defined resources
//! ([`slots`]), with a concrete verified boundary to run them against
//! ([`boundary`]); the raw (re)allocation shim demanded by the ABI's calling
//! convention ([`shim`]); the canonical value lifters that turn wire values
//! into host values ([`lift`] and [`text`]); and the one-time constructor
//! guard that exported entry points consult first ([`guard`]).

pub mod boundary;
pub mod guard;
pub mod lift;
pub mod resource;
pub mod shim;
pub mod slots;
pub mod text;
