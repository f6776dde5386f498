//! Estimation of runtime-tunable sizing parameters ("knobs") for a synthetic
//! memory/CPU/IO load generator used in resource-control testing.
//!
//! The crate models one benchmark job: it validates a small property mapping
//! into a [`config::JobConfig`], then either computes an approximate parameter
//! set locally ([`local`]) or prepares a start request for a long-running
//! external calibration operation and decides, poll by poll, when that
//! operation has converged ([`wait`], [`delegated`]).  The surrounding harness
//! performs the actual process control and I/O; everything that decides or
//! computes lives here.

pub mod config;
pub mod defaults;
pub mod delegated;
pub mod job;
pub mod local;
pub mod result;
pub mod parse;
pub mod units;
pub mod wait;
