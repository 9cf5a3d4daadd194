//! The request and response types, one module for each operation.

pub mod create_image;
pub mod embedding;
pub mod speech;
pub mod whisper;
