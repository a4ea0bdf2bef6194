//! Service administration decisions (the service control manager, the
//! registry and the file system are driven by the shell).

use vstd::prelude::*;

use crate::adapter::{lowercase, to_lowercase};
use crate::config::{blank, is_blank, Config, Dial};
use crate::text::{chars_of, string_of, text_eq};

verus! {

/// Name of the Windows service.
pub const SERVICE_NAME: &'static str = "gdut-net";

/// A purge refused because the directory is not named `gdut-net`.
#[derive(Debug, Clone, PartialEq, Eq)]
pub struct PurgeRefused;

/// Purge guard: the configuration path can point anywhere (even a drive
/// root), so its directory is removed only when its name is `gdut-net` in
/// any case. `dir_name` is the last component of the directory, if any.
pub fn ensure_purge_safe(dir_name: Option<&str>) -> (r: Result<(), PurgeRefused>)
    ensures
        r is Ok <==> (dir_name matches Some(n) && lowercase(n@) == "gdut-net"@),
{
    match dir_name {
        Some(n) => {
            let lower = to_lowercase(n);
            if text_eq(lower.as_str(), "gdut-net") {
                Ok(())
            } else {
                Err(PurgeRefused)
            }
        },
        None => Err(PurgeRefused),
    }
}

/// Configuration path used when the service is started without `--config`.
pub const DEFAULT_CONFIG_PATH: &'static str = "C:\\ProgramData\\gdut-net\\config.toml";

/// The HTTP probe URL of older configurations, blocked by the campus network.
pub const LEGACY_HTTP_PROBE_URL: &'static str = "http://9.9.9.9";

/// Its replacement.
pub const HTTP_PROBE_URL: &'static str = "http://223.5.5.5";

/// Seconds after which the failure count of the service is reset.
pub const RESET_PERIOD_SECS: u64 = 86400;

/// How long `uninstall` waits for the service to stop, in milliseconds.
pub const STOP_TIMEOUT_MS: u64 = 10000;

/// Pause between two status queries while waiting, in milliseconds.
pub const STOP_POLL_MS: u64 = 500;

/// Input that `install` refuses before anything is written.
#[derive(Debug, Clone, PartialEq, Eq)]
pub enum InstallInputError {
    EmptyPassword,
}

/// `install` refuses an empty password.
pub fn check_install_password(password: &str) -> (r: Result<(), InstallInputError>)
    ensures
        r is Err <==> password@.len() == 0,
{
    if password.unicode_len() == 0 {
        Err(InstallInputError::EmptyPassword)
    } else {
        Ok(())
    }
}

/// Whether `install` has to ask for the student ID: the configuration has
/// none once surrounding whitespace is removed.
pub fn needs_student_id(cfg: &Config) -> (r: bool)
    ensures
        r == is_blank(cfg.account.student_id@),
{
    blank(cfg.account.student_id.as_str())
}

/// Rewrites the legacy HTTP probe URL to its replacement and says whether it
/// did; every other setting is kept.
pub fn migrate_probe_url(dial: &mut Dial) -> (migrated: bool)
    ensures
        migrated <==> old(dial).http_probe_url@ == LEGACY_HTTP_PROBE_URL@,
        migrated ==> final(dial).http_probe_url@ == HTTP_PROBE_URL@,
        !migrated ==> final(dial).http_probe_url@ == old(dial).http_probe_url@,
        final(dial).entry_name@ == old(dial).entry_name@,
        final(dial).pbk_path@ == old(dial).pbk_path@,
        final(dial).interface@ == old(dial).interface@,
        final(dial).probe_interval_secs == old(dial).probe_interval_secs,
{
    if text_eq(dial.http_probe_url.as_str(), LEGACY_HTTP_PROBE_URL) {
        dial.http_probe_url = String::from_str(HTTP_PROBE_URL);
        true
    } else {
        false
    }
}

/// Line end characters.
pub open spec fn is_eol(c: char) -> bool {
    c == '\r' || c == '\n'
}

/// A line without the run of `\r` and `\n` at its end.
pub open spec fn strip_eol(line: Seq<char>) -> Seq<char>
    decreases line.len(),
{
    if line.len() > 0 && is_eol(line.last()) {
        strip_eol(line.drop_last())
    } else {
        line
    }
}

proof fn lemma_strip_eol(s: Seq<char>, k: int)
    requires
        0 <= k <= s.len(),
        forall|i: int| k <= i < s.len() ==> is_eol(#[trigger] s[i]),
        k == 0 || !is_eol(s[k - 1]),
    ensures
        strip_eol(s) == s.subrange(0, k),
    decreases s.len(),
{
    if s.len() > k {
        assert(s.drop_last().subrange(0, k) =~= s.subrange(0, k));
        lemma_strip_eol(s.drop_last(), k);
    } else {
        assert(s.subrange(0, k) =~= s);
    }
}

/// A password read from standard input: the line without its line ending.
pub fn strip_line_ending(line: &str) -> (r: String)
    ensures
        r@ == strip_eol(line@),
{
    let cs = chars_of(line);
    let mut k: usize = cs.len();
    while k > 0 && (cs[k - 1] == '\r' || cs[k - 1] == '\n')
        invariant
            k <= cs@.len(),
            forall|i: int| k <= i < cs@.len() ==> is_eol(#[trigger] cs@[i]),
        decreases k,
    {
        k = k - 1;
    }
    proof {
        lemma_strip_eol(cs@, k as int);
    }
    let kept = vstd::slice::slice_subrange(cs.as_slice(), 0, k);
    string_of(kept)
}

/// Arguments the service is started with: the configuration path, then `run`.
pub fn launch_arguments(cfg_path: &str) -> (r: Vec<String>)
    ensures
        r@.len() == 3,
        r@[0]@ == "--config"@,
        r@[1]@ == cfg_path@,
        r@[2]@ == "run"@,
{
    vec![String::from_str("--config"), String::from_str(cfg_path), String::from_str("run")]
}

/// Restart delays after the first, second and later failures, in seconds.
pub fn restart_delays_secs() -> (r: Vec<u64>)
    ensures
        r@ == seq![5u64, 30u64, 60u64],
{
    let r = vec![5u64, 30u64, 60u64];
    assert(r@ =~= seq![5u64, 30u64, 60u64]);
    r
}

/// The configuration path of a running service: the argument after the
/// first `--config`, or the default path when there is none.
pub open spec fn spec_config_path_from_args(args: Seq<Seq<char>>) -> Seq<char> {
    if exists|i: int| 0 <= i < args.len() && args[i] == "--config"@ {
        let i = choose|i: int|
            0 <= i < args.len() && args[i] == "--config"@ && forall|j: int|
                0 <= j < i ==> args[j] != "--config"@;
        if i + 1 < args.len() {
            args[i + 1]
        } else {
            DEFAULT_CONFIG_PATH@
        }
    } else {
        DEFAULT_CONFIG_PATH@
    }
}

/// Finds the configuration path among the service's arguments.
pub fn config_path_from_args(args: &[String]) -> (r: String)
    ensures
        r@ == spec_config_path_from_args(args@.map_values(|a: String| a@)),
{
    let ghost view = args@.map_values(|a: String| a@);
    let mut i: usize = 0;
    while i < args.len()
        invariant
            i <= args@.len(),
            view == args@.map_values(|a: String| a@),
            forall|j: int| 0 <= j < i ==> view[j] != "--config"@,
        decreases args.len() - i,
    {
        if text_eq(args[i].as_str(), "--config") {
            proof {
                assert(view[i as int] == "--config"@);
                let c = choose|c: int|
                    0 <= c < view.len() && view[c] == "--config"@ && forall|j: int|
                        0 <= j < c ==> view[j] != "--config"@;
                assert(c == i as int) by {
                    if c < i {
                        assert(view[c] != "--config"@);
                    }
                    if c > i {
                        assert(view[i as int] != "--config"@);
                    }
                }
            }
            if i + 1 < args.len() {
                return args[i + 1].clone();
            } else {
                return String::from_str(DEFAULT_CONFIG_PATH);
            }
        }
        i = i + 1;
    }
    String::from_str(DEFAULT_CONFIG_PATH)
}

/// One look at the service while `uninstall` waits for it to stop.
#[derive(Debug, Clone, Copy, PartialEq, Eq)]
pub enum StopWait {
    /// It has stopped: go on deleting it.
    Stopped,
    /// Ten seconds passed: give up with an error (the service may be marked
    /// for deletion and go away after a reboot).
    TimedOut,
    /// Query again after `STOP_POLL_MS`.
    Poll,
}

/// Decides the wait for the service to stop from its state and the time
/// spent waiting.
pub fn stop_wait_step(stopped: bool, elapsed_ms: u64) -> (r: StopWait)
    ensures
        stopped ==> r == StopWait::Stopped,
        !stopped && elapsed_ms >= STOP_TIMEOUT_MS ==> r == StopWait::TimedOut,
        !stopped && elapsed_ms < STOP_TIMEOUT_MS ==> r == StopWait::Poll,
{
    if stopped {
        StopWait::Stopped
    } else if elapsed_ms >= STOP_TIMEOUT_MS {
        StopWait::TimedOut
    } else {
        StopWait::Poll
    }
}

} // verus!
