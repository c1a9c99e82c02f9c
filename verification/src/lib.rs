//! Configuration, error handling and control logic of a processor around WebRTC's audio
//! processing module (echo cancellation, noise suppression, automatic gain control and so on).
pub mod config;
pub mod convert;
pub mod error;
pub mod native;
pub mod processor;
pub mod stats;

pub use config::Config;
pub use error::{result_from_code, Error};
pub use processor::{NativeCreation, Processor};
