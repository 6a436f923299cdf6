//! Startup orchestration for a speech/text streaming server: configuration
//! resolution, compute-device selection and the model warm-up decisions.

pub mod config;
pub mod device;
pub mod env;
pub mod error;
pub mod warmup;
