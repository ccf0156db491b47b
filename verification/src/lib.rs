//! A catalog of annotated language-feature snippets together with a small
//! verification harness: snippets declare how they are expected to behave
//! (compile and run, compile only, fail to compile, or panic at runtime),
//! an evaluator judges each observed toolchain outcome against the declared
//! expectation, and a report aggregates the verdicts by topic.
//!
//! The harness itself never invokes a compiler: callers run the toolchain,
//! hand the observed outcome to [`evaluate::evaluate`], and render the
//! aggregated [`report::Report`] with [`render::render`].

pub mod catalog;
pub mod evaluate;
pub mod examples;
pub mod parse;
pub mod render;
pub mod report;
