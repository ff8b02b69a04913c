//! A seeded 64-bit ChibiHash fingerprint behind a buffering writer.
//!
//! `Chibihash` keeps a widened 64-bit seed and every byte written to it;
//! `finish` hashes the whole accumulated buffer again on each call, while
//! `hash` hashes a single key without touching the buffer.
pub mod bytes;
pub mod hasher;
pub mod seed;

pub use bytes::{load64be, load64le};
pub use hasher::Chibihash;
