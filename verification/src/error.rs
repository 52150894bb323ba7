//! Errors of the inference engine, and how the app presents them.
use vstd::prelude::*;
use crate::text::{decimal, push_decimal, push_str};

verus! {

/// Everything that can go wrong between a request and an image.
#[derive(Debug, Clone, PartialEq, Eq)]
pub enum SdError {
    ContextCreationFailed { reason: String },
    InferenceReturnedNull,
    FfiPanic { message: String },
    ModelNotFound { path: String },
    ModelHashMismatch { expected: String, actual: String },
    UnsupportedModelFormat { path: String },
    DownloadFailed { url: String, reason: String },
    DownloadInterrupted,
    InsufficientDiskSpace { needed_mb: u64, available_mb: u64 },
    GpuBackendUnavailable { backend: String },
    OutOfVram { needed_mb: u64, available_mb: u64 },
    Cancelled,
    InvalidParams { reason: String },
    /// An operating-system I/O failure, carried as its message.
    Io { message: String },
}

/// The human-readable text of each error.
pub open spec fn sd_error_text(e: SdError) -> Seq<char> {
    match e {
        SdError::ContextCreationFailed { reason } => "Failed to create model context: "@ + reason@,
        SdError::InferenceReturnedNull =>
            "Inference returned null — model may be corrupted or incompatible"@,
        SdError::FfiPanic { message } => "FFI panic caught in inference thread: "@ + message@,
        SdError::ModelNotFound { path } => "Model file not found: "@ + path@,
        SdError::ModelHashMismatch { expected, actual } =>
            "Model file corrupted — SHA256 mismatch (expected "@ + expected@ + ", got "@ + actual@
                + ")"@,
        SdError::UnsupportedModelFormat { path } => "Unsupported model format: "@ + path@,
        SdError::DownloadFailed { url, reason } => "Download failed: "@ + url@ + " — "@ + reason@,
        SdError::DownloadInterrupted => "Download interrupted — can be resumed"@,
        SdError::InsufficientDiskSpace { needed_mb, available_mb } =>
            "Insufficient disk space: need "@ + decimal(needed_mb as nat) + "MB, have "@ + decimal(
                available_mb as nat,
            ) + "MB"@,
        SdError::GpuBackendUnavailable { backend } => "GPU backend unavailable: "@ + backend@
            + " — falling back to CPU"@,
        SdError::OutOfVram { needed_mb, available_mb } => "Out of VRAM: model needs ~"@ + decimal(
            needed_mb as nat,
        ) + "MB, GPU has "@ + decimal(available_mb as nat) + "MB"@,
        SdError::Cancelled => "Generation cancelled by user"@,
        SdError::InvalidParams { reason } => "Invalid parameters: "@ + reason@,
        SdError::Io { message } => "IO error: "@ + message@,
    }
}

/// A `String` holding `a` followed by `b`.
fn join2(a: &str, b: &str) -> (s: String)
    ensures
        s@ == a@ + b@,
{
    let mut s = String::from_str(a);
    push_str(&mut s, b);
    s
}

impl SdError {
    /// The human-readable text of this error.
    pub fn message(&self) -> (s: String)
        ensures
            s@ == sd_error_text(*self),
    {
        match self {
            SdError::ContextCreationFailed { reason } => join2(
                "Failed to create model context: ",
                reason.as_str(),
            ),
            SdError::InferenceReturnedNull => String::from_str(
                "Inference returned null — model may be corrupted or incompatible",
            ),
            SdError::FfiPanic { message } => join2(
                "FFI panic caught in inference thread: ",
                message.as_str(),
            ),
            SdError::ModelNotFound { path } => join2("Model file not found: ", path.as_str()),
            SdError::ModelHashMismatch { expected, actual } => {
                let mut s = String::from_str("Model file corrupted — SHA256 mismatch (expected ");
                push_str(&mut s, expected.as_str());
                push_str(&mut s, ", got ");
                push_str(&mut s, actual.as_str());
                push_str(&mut s, ")");
                s
            },
            SdError::UnsupportedModelFormat { path } => join2(
                "Unsupported model format: ",
                path.as_str(),
            ),
            SdError::DownloadFailed { url, reason } => {
                let mut s = String::from_str("Download failed: ");
                push_str(&mut s, url.as_str());
                push_str(&mut s, " — ");
                push_str(&mut s, reason.as_str());
                s
            },
            SdError::DownloadInterrupted => String::from_str(
                "Download interrupted — can be resumed",
            ),
            SdError::InsufficientDiskSpace { needed_mb, available_mb } => {
                let mut s = String::from_str("Insufficient disk space: need ");
                push_decimal(&mut s, *needed_mb);
                push_str(&mut s, "MB, have ");
                push_decimal(&mut s, *available_mb);
                push_str(&mut s, "MB");
                s
            },
            SdError::GpuBackendUnavailable { backend } => {
                let mut s = String::from_str("GPU backend unavailable: ");
                push_str(&mut s, backend.as_str());
                push_str(&mut s, " — falling back to CPU");
                s
            },
            SdError::OutOfVram { needed_mb, available_mb } => {
                let mut s = String::from_str("Out of VRAM: model needs ~");
                push_decimal(&mut s, *needed_mb);
                push_str(&mut s, "MB, GPU has ");
                push_decimal(&mut s, *available_mb);
                push_str(&mut s, "MB");
                s
            },
            SdError::Cancelled => String::from_str("Generation cancelled by user"),
            SdError::InvalidParams { reason } => join2("Invalid parameters: ", reason.as_str()),
            SdError::Io { message } => join2("IO error: ", message.as_str()),
        }
    }
}

/// An error as the UI shows it: what happened, and what the user can do.
#[derive(Debug, Clone)]
pub struct AppError {
    pub message: String,
    pub recovery: Option<String>,
}

/// The message the UI shows for an engine error.
pub open spec fn app_message(e: SdError) -> Seq<char> {
    match e {
        SdError::InferenceReturnedNull => "Image generation failed unexpectedly."@,
        SdError::ModelHashMismatch { .. } => "Model file appears corrupted (checksum mismatch)."@,
        SdError::DownloadInterrupted => "Download interrupted."@,
        SdError::Cancelled => "Generation cancelled."@,
        _ => sd_error_text(e),
    }
}

/// The recovery hint the UI shows for an engine error, if any.
pub open spec fn app_recovery(e: SdError) -> Option<Seq<char>> {
    match e {
        SdError::ContextCreationFailed { .. } => Some("Try re-downloading the model."@),
        SdError::InferenceReturnedNull => Some("Try different parameters or a different model."@),
        SdError::ModelNotFound { .. } => Some("Re-download the model from the Model Browser."@),
        SdError::ModelHashMismatch { .. } => Some("Delete and re-download the model."@),
        SdError::DownloadFailed { .. } => Some("Check your internet connection and try again."@),
        SdError::DownloadInterrupted => Some("Click Resume to continue."@),
        SdError::InsufficientDiskSpace { .. } => Some(
            "Free up disk space or choose a smaller model."@,
        ),
        SdError::OutOfVram { .. } => Some("Try a smaller/more quantized model, or use CPU mode."@),
        _ => None,
    }
}

/// The view of an optional string.
pub open spec fn opt_view(o: Option<String>) -> Option<Seq<char>> {
    match o {
        Some(s) => Some(s@),
        None => None,
    }
}

fn some_str(s: &str) -> (r: Option<String>)
    ensures
        opt_view(r) == Some(s@),
{
    Some(String::from_str(s))
}

impl AppError {
    /// How an engine error is presented: the message shown, and a recovery
    /// hint where the user can do something about it.
    pub fn from(err: SdError) -> (a: AppError)
        ensures
            a.message@ == app_message(err),
            opt_view(a.recovery) == app_recovery(err),
    {
        match &err {
            SdError::ContextCreationFailed { .. } => AppError {
                message: err.message(),
                recovery: some_str("Try re-downloading the model."),
            },
            SdError::InferenceReturnedNull => AppError {
                message: String::from_str("Image generation failed unexpectedly."),
                recovery: some_str("Try different parameters or a different model."),
            },
            SdError::ModelNotFound { .. } => AppError {
                message: err.message(),
                recovery: some_str("Re-download the model from the Model Browser."),
            },
            SdError::ModelHashMismatch { .. } => AppError {
                message: String::from_str("Model file appears corrupted (checksum mismatch)."),
                recovery: some_str("Delete and re-download the model."),
            },
            SdError::DownloadFailed { .. } => AppError {
                message: err.message(),
                recovery: some_str("Check your internet connection and try again."),
            },
            SdError::DownloadInterrupted => AppError {
                message: String::from_str("Download interrupted."),
                recovery: some_str("Click Resume to continue."),
            },
            SdError::InsufficientDiskSpace { .. } => AppError {
                message: err.message(),
                recovery: some_str("Free up disk space or choose a smaller model."),
            },
            SdError::GpuBackendUnavailable { .. } => AppError { message: err.message(), recovery: None },
            SdError::OutOfVram { .. } => AppError {
                message: err.message(),
                recovery: some_str("Try a smaller/more quantized model, or use CPU mode."),
            },
            SdError::Cancelled => AppError {
                message: String::from_str("Generation cancelled."),
                recovery: None,
            },
            _ => AppError { message: err.message(), recovery: None },
        }
    }

    /// The text the error displays as: its message.
    pub fn to_display_string(&self) -> (s: String)
        ensures
            s@ == self.message@,
    {
        self.message.clone()
    }
}

} // verus!
