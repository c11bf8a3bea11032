//! Decision core of an unattended update agent.
//!
//! The agent asks a control plane for the newest version of its software,
//! fetches the artifact over a link that may break at any time, unpacks
//! it, runs its installer and reports how that went. Everything here is a
//! function from plain values to plain values: the caller performs the
//! network, file and process work and reports what came of it; the
//! functions of this crate decide what to do next.
//!
//! Three machines are driven that way, each by one step function that
//! takes where the work stands and what the last action led to: a cycle
//! ([`cycle::run_update_cycle`]), the resumable transfer of an artifact
//! ([`api_client::ApiClient::download_update`]) and the run of an installer
//! ([`installer::run_update_script`]). Unpacking
//! ([`archive::unzip_update`]) turns the bytes of an artifact into the list
//! of files and directories to make.
//!
//! Paths are text whose parts `/` separates.

pub mod api_client;
pub mod archive;
pub mod config;
pub mod cycle;
pub mod decimal;
pub mod download;
pub mod error;
pub mod installer;
pub mod paths;
pub mod text;
