//! Instruction-execution core of an emulator for an 8-bit system-on-chip
//! (a Sharp SM83-class processor).
//!
//! The crate decodes a stream of machine-code bytes one instruction at a
//! time, mutates an eight-register/flag model, and routes all memory traffic
//! through a flat 64KB address space that aliases a video-memory window.
//! Window management, on-screen rendering and boot-data loading are host
//! concerns and live outside this crate; the tile decoding itself is pure
//! and lives in [`renderer`].

pub mod cpu;
pub mod gpu;
pub mod renderer;
