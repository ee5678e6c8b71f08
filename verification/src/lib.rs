//! Core of a sandboxed-compile service: deterministic hashing of submitted
//! source, an ephemeral container lifecycle driven as a state machine,
//! artifact-store path computation, and classification of failures into
//! "the user's build failed" versus "the infrastructure failed".
//!
//! All I/O (running the container engine, reading and writing files, serving
//! HTTP) is performed by an unverified driver outside this crate; the driver
//! reports each outcome back as a plain event and this crate decides every
//! next step.

pub mod artifacts;
pub mod engine;
pub mod hash;
pub mod outcome;
pub mod pipeline;
pub mod source_id;
