//! Verified core of a wavelet (scalogram) audio analysis tool.

pub mod audio;
pub mod service;
pub mod source;
pub mod text;
pub mod transform;
pub mod wavelet;
