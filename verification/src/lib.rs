//! Client-side logic for a media-authenticity detection service: uploading
//! files, polling for the results of their analysis, and bringing the
//! service's scores onto one scale.
//!
//! The library decides and computes; it does not touch the file system, the
//! network or the clock. Each operation that needs them is a sequence of
//! steps: the library says what to do next, the caller does it and hands
//! back what came of it.

pub mod batch;
pub mod client;
pub mod config;
pub mod decimal;
pub mod error;
pub mod file;
pub mod http;
pub mod models;
pub mod normalize;
pub mod polling;
pub mod score;
pub mod text;
pub mod upload;
pub mod utils;

pub use client::Client;
pub use config::Config;
pub use error::{Error, Result};
pub use models::{
    AnalysisResult, BatchOptions, DetectionModel, DetectionModelResult, DetectionResult,
    DetectionResultList, FloatOrObject, FormattedDetectionResultList, GetResultOptions,
    GetResultsOptions, ResultsSummary, UploadOptions, UploadResult,
};
pub use score::Score;
