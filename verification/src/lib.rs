//! Execution-node logic for running an external prover or verifier binary:
//! path resolution, command construction, outcome classification, result
//! reporting and the pipeline that ties them together.

pub mod command;
pub mod dispatch;
pub mod error;
pub mod laws;
pub mod message;
pub mod outcome;
pub mod paths;
pub mod pipeline;
pub mod report;
pub mod request;
pub mod text;
