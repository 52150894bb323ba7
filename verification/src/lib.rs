//! Blink: the verified core of a local image-generation app.
//!
//! The modules hold the logic of the app around the sd.cpp engine: the
//! progress-phase machine, request checks, the images a generation hands to
//! the engine and what it hands back, placement decisions, cancellation,
//! model-catalogue rules, downloads and activation, the gallery,
//! prompt-enhancement replies and image encodings.
pub mod cancel;
pub mod download;
pub mod engine;
pub mod error;
pub mod gallery;
pub mod generation;
pub mod gpu;
pub mod imaging;
pub mod inputs;
pub mod models;
pub mod placement;
pub mod progress;
pub mod settings;
pub mod text;
pub mod types;

pub use error::{AppError, SdError};
pub use gpu::GpuBackend;
pub use progress::Phase;
pub use types::{ContextConfig, GeneratedImage, LoraApplyMode, SampleMethod};
