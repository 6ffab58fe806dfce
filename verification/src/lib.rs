//! Boundary-marshalling core for a proving subsystem.
//!
//! Values that cross the boundary between two independently memory-managed
//! domains are represented as flat records: a status code, an optional
//! error message, and payload fields that are either plain scalars,
//! fixed-size byte arrays, registry enums, or byte buffers.  Every byte
//! buffer is an allocation owned by exactly one side at a time; it is
//! duplicated by a deep copy and released exactly once.
//!
//! The allocations themselves are modelled by an explicit allocation
//! table ([`heap::Heap`]), so that the ownership protocol - who owns
//! which allocation, and that each one is released exactly once - is
//! stated in contracts and checked by the verifier.

#![allow(non_camel_case_types)]

pub mod bls;
pub mod buffer;
pub mod heap;
pub mod post;
pub mod proofs;
pub mod registry;
pub mod responses;
pub mod status;
