//! Command line of the main program: the parsed command and the decisions
//! taken on it (argument parsing itself is done by the shell).

use vstd::prelude::*;

use crate::protocol::NetMode;

verus! {

/// Default configuration path.
pub const DEFAULT_CONFIG: &'static str = "C:\\ProgramData\\gdut-net\\config.toml";

/// Parsed command line.
pub struct Cli {
    pub config: String,
    /// Read the password from standard input (scripts).
    pub password_stdin: bool,
    pub cmd: Cmd,
}

/// Subcommand.
#[derive(Debug, Clone, Copy, PartialEq, Eq, Structural)]
pub enum Cmd {
    /// Run as the Windows service.
    Run,
    /// Install the service, the dial entry and the configuration.
    Install { keep_password: bool },
    /// Uninstall (with `purge`, also the configuration and logs).
    Uninstall { purge: bool },
    /// Show the current status.
    Status,
    /// Start the tray.
    Tray,
    /// Wireless utilities.
    Wireless { action: WirelessAction },
}

/// Wireless subcommand.
#[derive(Debug, Clone, Copy, PartialEq, Eq, Structural)]
pub enum WirelessAction {
    /// Join the campus SSID once, try one portal login, print the reply.
    Test,
    /// Switch the service to wired-exclusive mode.
    Off,
    /// Switch the service to wired plus wireless standby.
    Standby,
}

/// Every command but `run` logs to standard error; the service sets up
/// its own logging once the configuration is loaded.
pub fn wants_cli_logging(cmd: Cmd) -> (r: bool)
    ensures
        r == !(cmd is Run),
{
    match cmd {
        Cmd::Run => false,
        _ => true,
    }
}

/// Mode a wireless subcommand switches to.
pub fn target_mode(a: WirelessAction) -> (r: Option<NetMode>)
    ensures
        r == match a {
            WirelessAction::Test => None,
            WirelessAction::Off => Some(NetMode::WiredExclusive),
            WirelessAction::Standby => Some(NetMode::WiredPlusStandby),
        },
{
    match a {
        WirelessAction::Test => None,
        WirelessAction::Off => Some(NetMode::WiredExclusive),
        WirelessAction::Standby => Some(NetMode::WiredPlusStandby),
    }
}

/// Snapshots read after a mode switch before giving up on its confirmation.
pub const CONFIRM_FRAMES: u32 = 5;

/// Next move while waiting for a mode switch to show in the snapshots.
#[derive(Debug, Clone, Copy, PartialEq, Eq, Structural)]
pub enum ConfirmStep {
    Confirmed,
    ReadMore,
    GiveUp,
}

/// Waiting for the service to confirm a mode switch: snapshots pushed in
/// between may still carry the old mode, so up to five are read.
pub struct ModeConfirm {
    mode: NetMode,
    seen: u32,
}

impl ModeConfirm {
    /// Requested mode.
    pub closed spec fn mode(&self) -> NetMode {
        self.mode
    }

    /// Snapshots read so far.
    pub closed spec fn seen(&self) -> u32 {
        self.seen
    }

    /// Waiting for `mode`, nothing read yet.
    pub fn new(mode: NetMode) -> (r: Self)
        ensures
            r.mode() == mode,
            r.seen() == 0,
    {
        ModeConfirm { mode, seen: 0 }
    }

    /// A snapshot with mode `shown` arrived: confirmed when it is the
    /// requested mode; otherwise read on, up to five snapshots in all.
    pub fn on_frame(&mut self, shown: NetMode) -> (r: ConfirmStep)
        requires
            old(self).seen() < CONFIRM_FRAMES,
        ensures
            final(self).mode() == old(self).mode(),
            final(self).seen() == old(self).seen() + 1,
            r == if shown == old(self).mode() {
                ConfirmStep::Confirmed
            } else if old(self).seen() + 1 >= CONFIRM_FRAMES {
                ConfirmStep::GiveUp
            } else {
                ConfirmStep::ReadMore
            },
            r is ReadMore ==> final(self).seen() < CONFIRM_FRAMES,
    {
        self.seen = self.seen + 1;
        if shown == self.mode {
            ConfirmStep::Confirmed
        } else if self.seen >= CONFIRM_FRAMES {
            ConfirmStep::GiveUp
        } else {
            ConfirmStep::ReadMore
        }
    }
}

} // verus!
