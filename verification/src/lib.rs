//! Pay-to-contract commitment encoding.
//!
//! A contract — a typed payload bound to a 16-byte nonce — has a canonical
//! 40-byte serialization that is used as tweak material for key derivation.
//! This crate holds the contract data model with its three construction
//! paths, and the command-mode resolver that decides, from a set of
//! mutually-constrained inputs, which path applies and what nonce policy
//! holds. The cryptographic tweaking itself, and all input and output, live
//! with the caller.

pub mod hexcode;

pub mod contract;

pub mod resolver;
