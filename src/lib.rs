//! JPEG decoding adapter: probes metadata, hides the four-channel ink-based
//! pixel format behind an additive RGB one, and hands decoded samples out
//! either through a streaming reader or into a caller-supplied buffer.
pub mod convert;
pub mod decoder;
pub mod reader;
