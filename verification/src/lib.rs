//! The GitHub Copilot provider.
//!
//! The model is reached through the Copilot SDK, and the host stays in charge: the SDK runs
//! without the tools, the configuration and the permissions of the machine, and is offered only
//! the tools that the host declares. When the model calls one, the call is captured and handed
//! back to the host.
//!
//! - [`catalog`] makes the provider known to the host's model catalog.
//! - [`prompt`] writes what the model is told, [`tools`] what it may call.
//! - [`session`] sets up the client and the session of a call, and [`call`] takes the call from
//!   its beginning to its result.
//! - [`stream`] forwards the answer while it grows, and [`response`] is the answer as a whole.
//! - [`json`], [`encode`] and [`text`] hold the values that all of these work on, and [`error`]
//!   what can go wrong.
//!
//! What is proved of an item stands in its contract. Facts that span several items are public
//! proof functions.

use vstd::prelude::*;

pub mod call;
pub mod catalog;
pub mod encode;
pub mod error;
pub mod json;
pub mod prompt;
pub mod response;
pub mod session;
pub mod stream;
pub mod text;
pub mod tools;

verus! {

/// The name of the provider.
pub const PROVIDER_ID: &'static str = "github-copilot";

} // verus!
