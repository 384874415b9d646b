//! Host-side support for driving an out-of-process CLR inspection engine.
//!
//! The inspection engine (the DAC, loaded as a shared library) examines the
//! internal state of a live .NET process.  It requires the host to supply a
//! data-target object implementing a fixed binary contract: raw memory
//! read/write, module base-address resolution, and reference-counted lifetime.
//!
//! This crate holds the verified core of that data target:
//!
//! - [`module_cache`]: the lazily-populated, case-insensitive module
//!   name-to-base-address cache behind image-base resolution;
//! - [`data_target`]: the data-target object state, its reference count,
//!   capability negotiation, and partial-transfer normalization for memory
//!   reads and writes;
//! - [`enumeration`]: the cursor protocol that drives the engine's
//!   domain/assembly/module enumerations;
//! - [`dac`]: selection of the inspection library's file name from the
//!   target's runtime module;
//! - [`hresult`] and [`guids`]: the status codes and interface identifiers of
//!   the foreign contract.
//!
//! The remaining modules mirror the foreign contract's declared data types
//! (status enumerations and diagnostic record layouts) so that callers can
//! decode what the engine hands back.
//!
//! The actual OS calls (process memory access, module enumeration, library
//! loading) are left to the embedding program; every function here is a pure
//! computation over plain values.

#![allow(non_camel_case_types)]
#![allow(non_snake_case)]
#![allow(non_upper_case_globals)]

pub mod bytes;
pub mod clr_debugging;
pub mod clr_task;
pub mod cor_debug;
pub mod cor_jit;
pub mod cor_profiler;
pub mod dac;
pub mod data_target;
pub mod enumeration;
pub mod fusion;
pub mod guids;
pub mod hresult;
pub mod module_cache;
pub mod sos_dac;
pub mod xclr_data;
