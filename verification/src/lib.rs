//! gdut-net: a third-party client for the GDUT campus wired network.
//!
//! The library holds the decision logic of the client (heartbeat packet
//! format, dial watchdog, wireless takeover, probes, status rendering,
//! payload container, argument parsing); the executable shell around it
//! lives in `app/`.

pub mod heartbeat;
pub mod text;
pub mod protocol;
pub mod status;
pub mod http;
pub mod probe;
pub mod backoff;
pub mod home_mode;
pub mod ras;
pub mod win32;
pub mod cmdline;
pub mod adapter;
pub mod wireless;
pub mod watchdog;
pub mod portal;
pub mod setup_args;
pub mod config;
pub mod crypto;
pub mod supervisor;
pub mod keepalive;
pub mod payload;
pub mod eventlog;
pub mod logging;
pub mod tray;
pub mod setup_flow;
pub mod egress;
pub mod cli;
pub mod shell_shortcuts;
pub mod service;
pub mod shell;
