//! A staged build-pipeline driver: given a single source file, it derives the
//! artifact names for an ordered sequence of transformation stages
//! (preprocess, compile, assemble/link), decides which stages to run for a
//! requested mode, and tracks the lifecycle of intermediate artifacts.
//!
//! The library holds the decision logic only: a caller performs the external
//! commands and filesystem removals that [`pipeline::Pipeline`] requests and
//! reports each outcome back.

pub mod mode;
pub mod namer;
pub mod pipeline;
