//! Auto white balance control for a camera image signal processor.
//!
//! The native ISP library is reached through the [`awb::NativeAwb`] trait; this
//! crate translates its status codes, its mode enumerations and its out values
//! into typed results.
pub mod awb;
pub mod error;
pub mod types;
