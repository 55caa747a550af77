//! Tools for deploying a built artifact tree to a remote host.
//!
//! The heart of the crate is the publish run: the freshly built tree is
//! unpacked beside the deployed one, the two are compared, and the outcome
//! is turned into the remote shell commands that bring the deployed tree up
//! to date. Everything here is a rule on plain values; reading files and
//! talking to the host is left to the caller.
//!
//! - [`text`] and [`paths`]: strings and remote paths.
//! - [`hashname`]: file names that carry a content hash.
//! - [`digest`]: content digests.
//! - [`diff`], [`plan`] and [`laws`]: the model of the comparison and of the
//!   plan, and what holds of them.
//! - [`upload`] and [`staging`]: the comparison, the plan, and the staging of
//!   the artifact.
//! - [`reconciler`]: the course of a run, with cleanup at its end.
//! - [`walk`]: listing a remote tree.
//! - [`config`], [`sftp`], [`runnable`]: settings, the session, and programs
//!   kept on the host.
//! - [`command`], [`file`], [`docker`], [`http`], [`images`], [`minimize`],
//!   [`redis`]: the rules of the tools around a deployment.

pub mod config;
pub mod text;
pub mod paths;
pub mod hashname;
pub mod digest;
pub mod diff;
pub mod plan;
pub mod upload;
pub mod staging;
pub mod reconciler;
pub mod walk;
pub mod laws;
pub mod sftp;
pub mod runnable;
pub mod command;
pub mod docker;
pub mod http;
pub mod images;
pub mod minimize;
pub mod redis;
pub mod file;
