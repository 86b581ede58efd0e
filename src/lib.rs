//! Guards a binary that is meant to run with wide SIMD: 256-bit AVX2 on
//! x86-64, or 128-bit NEON on aarch64.
//!
//! Two decisions are stated and proved here:
//! - the build-time check ([`config_check::check_build`]), which refuses a release
//!   build in which neither AVX2 nor NEON is enabled, unless the scalar
//!   fallback was accepted;
//! - the run-time probe ([`probe::probe_plan`], [`probe::on_cpu_report`]),
//!   which stops a binary compiled for AVX2 on a CPU that lacks it.
pub mod config_check;
pub mod probe;
pub mod text;
