//! Inference invocation pipeline: interpreter resolution, upload staging
//! paths, the two-phase probe/run protocol and structural decoding of the
//! interpreter's JSON answer.

pub mod invoke;
pub mod json;
pub mod layout;
pub mod resolver;
pub mod result;
