//! Type descriptors, identities and runtime matchers for provider values.
//!
//! A build rule hands its results to dependents as *providers*: named bundles
//! of fields. This crate gives every provider-like value a type descriptor
//! that static typing can compare and cache, and a runtime predicate that
//! decides whether an arbitrary value is a provider, whatever concrete
//! representation produced it.
//!
//! All state lives in an explicit [`registry::TypeRegistry`]; there is no
//! ambient global. Every executable function carries a contract, and Verus
//! proves each of them but one: sharing a descriptor goes through the `dupe`
//! crate, whose contract is taken on trust.
//!
//! The [`completion`] module stands apart: it holds what a check of shell
//! completions has to compute.

pub mod abstract_provider;
pub mod completion;
pub mod descriptor;
pub mod identity;
pub mod matcher;
pub mod registry;
pub mod slot;
pub mod value;
