//! Runtime core of a host-resident monitoring agent.
//!
//! The agent samples local disk usage, keeps the samples in a bounded
//! buffer, ships them in batches to a collection API and keeps a durable
//! registration identity for the host.  This crate holds the decisions of
//! that runtime together with their contracts; reading files, talking to the
//! network and waiting on timers are left to the program built around it.
//!
//! - [`agent`]: the agent itself: registration, collection and flushing.
//! - [`buffer`]: the bounded buffer of samples.
//! - [`metrics`]: samples, the disk collector and batches.
//! - [`state`]: the saved registration and the files that it lives in.
//! - [`oauth`]: the access token and its cache.
//! - [`client`]: requests to the collection API and what its answers mean.
//! - [`cloud`]: the questioning of the cloud metadata services.
//! - [`metadata`]: instance identity and the session fingerprint.
//! - [`config`]: the settings and their validation.
//! - [`http`], [`host`]: what is taken on trust from the HTTP client and
//!   from the machine.
//! - [`clock`], [`progress`], [`text`]: small things that the others share.

pub mod agent;
pub mod buffer;
pub mod client;
pub mod clock;
pub mod cloud;
pub mod config;
pub mod host;
pub mod http;
pub mod metadata;
pub mod metrics;
pub mod oauth;
pub mod progress;
pub mod state;
pub mod text;
