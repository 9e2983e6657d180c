//! Verified core of a modular, boundary-crossing object system.
//!
//! Logical objects (calculators, string processors, loggers) live behind
//! process-unique numeric handles in a per-type registry. All calls across
//! the component boundary are made with plain, ABI-stable values: integers,
//! and null-terminated byte buffers for text. This crate holds the verified
//! logic: the handle registry, the buffer marshaling layer, the domain
//! operations, and the boundary entry-point logic on plain values. The raw
//! pointer handling, the process-wide locks around the registries, and the
//! dynamic-library loading live in the unverified embedding.

pub mod boundary;
pub mod common;
pub mod marshal;
pub mod mathlib;
pub mod registry;
pub mod stringlib;

pub use common::max;
pub use common::min;
pub use common::to_upper;
pub use common::Logger;
