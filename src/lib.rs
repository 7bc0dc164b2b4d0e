//! Deployment packaging and rollout tracking for a self-hosted cloud CLI.
//!
//! A project directory is walked (`paths`), checked against the server's file
//! quota (`quota`) and written to a gzip-compressed tar archive (`archive`)
//! for upload (`upload`). Server-side phases are then followed by polling
//! their status (`phases`, `poller`) until they converge or time out.
use vstd::prelude::*;

pub mod archive;
pub mod endpoints;
pub mod model;
pub mod paths;
pub mod phases;
pub mod plan;
pub mod poller;
pub mod quota;
pub mod render;
pub mod text;
pub mod upload;

verus! {

} // verus!
