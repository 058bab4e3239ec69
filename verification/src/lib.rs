//! Noob Saturator: an antialiased waveshaper whose dry path is delayed to
//! match its wet one, so that the dry/wet control sums without combing.
//!
//! This crate holds the parts of the device whose correctness is a matter of
//! counting rather than of arithmetic on samples: the curve menu, the
//! oversampling cascade's depth and latency, the delay lines that carry the
//! dry path and the polyphase histories, the stream and parameter layout,
//! the publishing schedule and the benchmark's report and its layout. Each is
//! stated and proved here. The floating-point signal path lives in the
//! application crate beside it and is built on these pieces.

pub mod dsp;
pub mod render;
pub mod report;
pub mod wav;
