//! Core of a live audio spectrum display: the capture-to-spectrum pipeline.
//!
//! A capture session polls an audio device for buffered frames, an
//! accumulator turns the raw byte chunks into a queue of 16-bit samples and
//! cuts fixed-size analysis windows from it, and a bucket map places the
//! windowed transform's bins on a fixed grid of display frequencies. The
//! device interface and the transform itself live outside this crate; what
//! stands here is the protocol bookkeeping, the framing and windowing
//! discipline, and the frequency mapping, with their contracts.

pub mod format;
pub mod samples;
pub mod capture;
pub mod spectrum;
pub mod tick;
