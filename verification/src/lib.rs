//! InternalVoice core: the decision logic of a system-health narrator, verified.
use vstd::prelude::*;

pub mod advisor;
pub mod alerts;
pub mod audio;
pub mod breaker;
pub mod cache;
pub mod clock;
pub mod config;
pub mod error;
pub mod gemini;
pub mod json;
pub mod live;
pub mod model;
pub mod platform;
pub mod policy;
pub mod polling;
pub mod probe;
pub mod publisher;
pub mod ranking;
pub mod security;
pub mod setup;
pub mod sse;
pub mod text;
pub mod tools;
pub mod tts;

verus! {
} // verus!
