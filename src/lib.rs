//! Plans a static build of FFmpeg and of the nasm and x264 it depends on:
//! the package version, the options that FFmpeg's `configure` gets from the
//! package's features, the commands of each stage, and which stages an
//! earlier build makes unnecessary.
use vstd::prelude::*;

pub mod flags;
pub mod install;
pub mod plan;
pub mod steps;
pub mod version;

verus! {

} // verus!
