//! Core of a pull-request review pipeline: classify a request URL by hosting
//! provider, normalize the provider's diff payload, compose a deterministic
//! review prompt, and interpret the review endpoint's answer. All network and
//! file handling lives outside this crate; every function here is verified.

pub mod config;
pub mod encode;
pub mod github;
pub mod gitlab;
pub mod links;
pub mod errors;
pub mod model;
pub mod openai;
pub mod orchestrator;
pub mod prompt;
pub mod strings;

use vstd::prelude::*;

verus! {

} // verus!
