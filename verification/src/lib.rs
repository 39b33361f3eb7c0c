//! Decision logic of audio transport pipelines that carry Opus over RTP
//! with optional forward error correction: reading the command line,
//! planning the pipeline, wiring pads that only appear at run time,
//! answering the session element's requests for FEC elements, supervising
//! the running pipeline and sampling its statistics.
//!
//! The library decides and the caller performs: every operation on the
//! media framework is handed out as a plain value, and its outcome is
//! handed back as one.

pub mod args;
pub mod assembly;
pub mod caps;
pub mod error;
pub mod fec;
pub mod launch;
pub mod names;
pub mod plan;
pub mod request;
pub mod router;
pub mod run;
pub mod stats;
pub mod supervisor;
pub mod text;
pub mod wiring;
