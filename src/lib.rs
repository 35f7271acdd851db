//! Source-tree lifecycle engine for assembling a minimal trusted computing
//! base: the version model, the marker, the interrupt guard, the meaning of
//! upstream answers, and the state machines that fetch a kernel or
//! boot-loader tree and keep the kernel current. The machines decide; the
//! caller performs each [`engine::Action`] and reports an [`engine::Event`].

pub mod text;
pub mod error;
pub mod version;
pub mod urls;
pub mod download;
pub mod interrupt;
pub mod paths;
pub mod engine;
pub mod config;
pub mod linux;
pub mod invariants;
pub mod decompress;
pub mod toolchain;
pub mod logging;
pub mod uboot;
pub mod packaging;
