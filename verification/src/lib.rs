//! Error taxonomy and propagation for a Linux GPIO character-device binding.
//!
//! Every fallible operation against a GPIO chip or line reports its failure
//! through the closed [`errors::Error`] taxonomy: two generic catch-alls for
//! uncategorized I/O and system-call failures, one purely local validation
//! failure, and eight operation-specific variants, two of which carry the
//! chip's device path for diagnosis.

pub mod errors;
pub mod lift;

pub use errors::Error;
