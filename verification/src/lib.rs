//! Image compression pipeline logic: format detection, per-format codec
//! policies, alpha compositing, savings accounting, output naming and the
//! per-file and per-batch processing state machines.
pub mod codecs;
pub mod errors;
pub mod formats;
pub mod metadata;
pub mod models;
pub mod output;
pub mod paths;
pub mod processor;
pub mod queue;
pub mod text;
pub mod validation;
