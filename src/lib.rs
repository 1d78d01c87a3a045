//! Spectral-to-visual synthesis: an audio engine that turns blocks of
//! samples into a published magnitude spectrum and paints whole RGBA frames
//! from it.
//!
//! The engine is generic over the sample type. Everything that needs real
//! arithmetic on samples (the window, the Fourier transform, the noise field,
//! the blend of noise and spectrum) is handed in as a closure, and the engine
//! proves what it does around those closures: which block each transform
//! receives, that the shared spectrum is only ever replaced whole, and that
//! every pixel of a frame is written once with a tinted, opaque color.
pub mod block;
pub mod color;
pub mod engine;
pub mod frame;
