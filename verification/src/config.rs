//! Service configuration: the data model, its defaults, and validation.
//! Reading and writing the TOML file is done by the shell.

use vstd::prelude::*;

use crate::portal::is_unicode_ws;
use crate::probe::{parse_http_probe_target, parse_ipv4, spec_parse_http_probe_target, spec_parse_ipv4};
use crate::protocol::NetMode;
use crate::text::chars_of;

verus! {

/// The only supported heartbeat module.
pub const HEARTBEAT_MODULE_GDUT: &'static str = "gdut";

/// Account credentials (the password only as a protected blob).
#[derive(Clone, Debug)]
pub struct Account {
    pub student_id: String,
    pub password_blob: String,
}

/// Dial entry and probing.
#[derive(Clone, Debug)]
pub struct Dial {
    pub entry_name: String,
    pub pbk_path: String,
    /// Physical adapter FriendlyName; empty selects automatically.
    pub interface: String,
    pub probe_interval_secs: u64,
    pub http_probe_url: String,
}

/// Compatibility heartbeat.
#[derive(Clone, Debug)]
pub struct HeartbeatCfg {
    pub enabled: bool,
    pub module: String,
    pub server: String,
    pub port: u16,
    pub interval_secs: u64,
}

/// Logging.
#[derive(Clone, Debug)]
pub struct LogCfg {
    pub dir: String,
    pub max_size_mb: u64,
    pub rotate_keep: u32,
    pub event_log: bool,
}

/// Wireless takeover.
#[derive(Clone, Debug)]
pub struct WirelessCfg {
    pub enabled: bool,
    pub mode: NetMode,
    /// WLAN profile name.
    pub profile: String,
    /// eportal login endpoint.
    pub portal_url: String,
    /// Address of the access controller.
    pub wlan_ac_ip: String,
    pub probe_host: String,
    /// Take over after this many seconds of wired loss.
    pub takeover_after_secs: u64,
    /// Give way after this many seconds of healthy wired link.
    pub release_after_secs: u64,
    /// WLAN route metric in standby; 0 disables the suppression.
    pub standby_metric: u32,
}

/// Whole configuration.
#[derive(Clone, Debug)]
pub struct Config {
    pub account: Account,
    pub dial: Dial,
    pub heartbeat: HeartbeatCfg,
    pub log: LogCfg,
    pub wireless: WirelessCfg,
}

/// The default account: no student ID, no password.
pub open spec fn is_default_account(a: Account) -> bool {
    &&& a.student_id@ == Seq::<char>::empty()
    &&& a.password_blob@ == Seq::<char>::empty()
}

/// The default dial settings.
pub open spec fn is_default_dial(d: Dial) -> bool {
    &&& d.entry_name@ == "gdut"@
    &&& d.pbk_path@ == "C:\\ProgramData\\gdut-net\\gdut.pbk"@
    &&& d.interface@ == Seq::<char>::empty()
    &&& d.probe_interval_secs == 30
    &&& d.http_probe_url@ == "http://223.5.5.5"@
}

/// The default heartbeat settings: off, module "gdut", 10.0.3.2:61440, every 20 s.
pub open spec fn is_default_heartbeat(h: HeartbeatCfg) -> bool {
    &&& !h.enabled
    &&& h.module@ == "gdut"@
    &&& h.server@ == "10.0.3.2"@
    &&& h.port == 61440
    &&& h.interval_secs == 20
}

/// The default log settings.
pub open spec fn is_default_log(l: LogCfg) -> bool {
    &&& l.dir@ == "C:\\ProgramData\\gdut-net\\logs"@
    &&& l.max_size_mb == 5
    &&& l.rotate_keep == 5
    &&& !l.event_log
}

/// The default wireless settings.
pub open spec fn is_default_wireless(w: WirelessCfg) -> bool {
    &&& w.enabled
    &&& w.mode == NetMode::WiredExclusive
    &&& w.profile@ == "gdut"@
    &&& w.portal_url@ == "http://10.0.3.2:801/eportal/portal/login"@
    &&& w.wlan_ac_ip@ == "172.16.254.2"@
    &&& w.probe_host@ == "223.5.5.5"@
    &&& w.takeover_after_secs == 8
    &&& w.release_after_secs == 10
    &&& w.standby_metric == 10
}

impl Default for Account {
    fn default() -> (r: Self)
        ensures
            is_default_account(r),
    {
        Account { student_id: String::new(), password_blob: String::new() }
    }
}

impl Default for Dial {
    fn default() -> (r: Self)
        ensures
            is_default_dial(r),
    {
        Dial {
            entry_name: String::from_str("gdut"),
            pbk_path: String::from_str("C:\\ProgramData\\gdut-net\\gdut.pbk"),
            interface: String::new(),
            probe_interval_secs: 30,
            http_probe_url: String::from_str("http://223.5.5.5"),
        }
    }
}

impl Default for HeartbeatCfg {
    fn default() -> (r: Self)
        ensures
            is_default_heartbeat(r),
    {
        HeartbeatCfg {
            enabled: false,
            module: String::from_str("gdut"),
            server: String::from_str("10.0.3.2"),
            port: 61440,
            interval_secs: 20,
        }
    }
}

impl Default for LogCfg {
    fn default() -> (r: Self)
        ensures
            is_default_log(r),
    {
        LogCfg {
            dir: String::from_str("C:\\ProgramData\\gdut-net\\logs"),
            max_size_mb: 5,
            rotate_keep: 5,
            event_log: false,
        }
    }
}

/// Wireless takeover is on unless the file says otherwise.
pub fn default_true() -> (r: bool)
    ensures
        r,
{
    true
}

/// Default WLAN profile.
pub fn default_wlan_profile() -> (r: String)
    ensures
        r@ == "gdut"@,
{
    String::from_str("gdut")
}

/// Default eportal login endpoint.
pub fn default_portal_url() -> (r: String)
    ensures
        r@ == "http://10.0.3.2:801/eportal/portal/login"@,
{
    String::from_str("http://10.0.3.2:801/eportal/portal/login")
}

/// Default access-controller address.
pub fn default_wlan_ac_ip() -> (r: String)
    ensures
        r@ == "172.16.254.2"@,
{
    String::from_str("172.16.254.2")
}

/// Default probe host.
pub fn default_probe_host() -> (r: String)
    ensures
        r@ == "223.5.5.5"@,
{
    String::from_str("223.5.5.5")
}

/// Default takeover debounce (seconds).
pub fn default_takeover_after() -> (r: u64)
    ensures
        r == 8,
{
    8
}

/// Default release debounce (seconds).
pub fn default_release_after() -> (r: u64)
    ensures
        r == 10,
{
    10
}

/// Default standby metric.
pub fn default_standby_metric() -> (r: u32)
    ensures
        r == 10,
{
    10
}

impl Default for WirelessCfg {
    fn default() -> (r: Self)
        ensures
            is_default_wireless(r),
    {
        WirelessCfg {
            enabled: default_true(),
            mode: NetMode::default(),
            profile: default_wlan_profile(),
            portal_url: default_portal_url(),
            wlan_ac_ip: default_wlan_ac_ip(),
            probe_host: default_probe_host(),
            takeover_after_secs: default_takeover_after(),
            release_after_secs: default_release_after(),
            standby_metric: default_standby_metric(),
        }
    }
}

impl Default for Config {
    fn default() -> (r: Self)
        ensures
            is_default_account(r.account),
            is_default_dial(r.dial),
            is_default_heartbeat(r.heartbeat),
            is_default_log(r.log),
            is_default_wireless(r.wireless),
    {
        Config {
            account: Account::default(),
            dial: Dial::default(),
            heartbeat: HeartbeatCfg::default(),
            log: LogCfg::default(),
            wireless: WirelessCfg::default(),
        }
    }
}

/// Why a configuration was refused.
#[derive(Debug, Clone, PartialEq, Eq)]
pub enum ConfigError {
    EmptyStudentId,
    /// The heartbeat module named (only "gdut" is supported).
    BadHeartbeatModule(String),
    ProbeIntervalTooSmall,
    BadHttpProbeUrl(String),
    BadPortalUrl(String),
    BadProbeHost(String),
    BadWirelessDebounce,
    StandbyMetricTooLarge,
}

/// Abstract refusal.
pub enum ConfigErrorView {
    EmptyStudentId,
    BadHeartbeatModule(Seq<char>),
    ProbeIntervalTooSmall,
    BadHttpProbeUrl(Seq<char>),
    BadPortalUrl(Seq<char>),
    BadProbeHost(Seq<char>),
    BadWirelessDebounce,
    StandbyMetricTooLarge,
}

/// Abstract view of a refusal.
pub open spec fn error_view(e: ConfigError) -> ConfigErrorView {
    match e {
        ConfigError::EmptyStudentId => ConfigErrorView::EmptyStudentId,
        ConfigError::BadHeartbeatModule(m) => ConfigErrorView::BadHeartbeatModule(m@),
        ConfigError::ProbeIntervalTooSmall => ConfigErrorView::ProbeIntervalTooSmall,
        ConfigError::BadHttpProbeUrl(u) => ConfigErrorView::BadHttpProbeUrl(u@),
        ConfigError::BadPortalUrl(u) => ConfigErrorView::BadPortalUrl(u@),
        ConfigError::BadProbeHost(h) => ConfigErrorView::BadProbeHost(h@),
        ConfigError::BadWirelessDebounce => ConfigErrorView::BadWirelessDebounce,
        ConfigError::StandbyMetricTooLarge => ConfigErrorView::StandbyMetricTooLarge,
    }
}

/// Whether the text is empty once trimmed (only whitespace).
pub open spec fn is_blank(s: Seq<char>) -> bool {
    forall|i: int| 0 <= i < s.len() ==> is_unicode_ws(#[trigger] s[i])
}

/// The first rule that a configuration breaks, if any: a student ID is
/// required; an enabled heartbeat must use the "gdut" module; probes run at
/// most every 5 seconds; the HTTP probe URL must be `http://` + IPv4; with
/// wireless enabled, the portal URL must be `http://` + IPv4, the probe host
/// an IPv4 literal, both debounces at least 1 second, the metric at most 9999.
pub open spec fn spec_validate(c: Config) -> Option<ConfigErrorView> {
    if is_blank(c.account.student_id@) {
        Some(ConfigErrorView::EmptyStudentId)
    } else if c.heartbeat.enabled && c.heartbeat.module@ != "gdut"@ {
        Some(ConfigErrorView::BadHeartbeatModule(c.heartbeat.module@))
    } else if c.dial.probe_interval_secs < 5 {
        Some(ConfigErrorView::ProbeIntervalTooSmall)
    } else if spec_parse_http_probe_target(c.dial.http_probe_url@) is None {
        Some(ConfigErrorView::BadHttpProbeUrl(c.dial.http_probe_url@))
    } else if !c.wireless.enabled {
        None
    } else if spec_parse_http_probe_target(c.wireless.portal_url@) is None {
        Some(ConfigErrorView::BadPortalUrl(c.wireless.portal_url@))
    } else if spec_parse_ipv4(c.wireless.probe_host@) is None {
        Some(ConfigErrorView::BadProbeHost(c.wireless.probe_host@))
    } else if c.wireless.takeover_after_secs < 1 || c.wireless.release_after_secs < 1 {
        Some(ConfigErrorView::BadWirelessDebounce)
    } else if c.wireless.standby_metric > 9999 {
        Some(ConfigErrorView::StandbyMetricTooLarge)
    } else {
        None
    }
}

pub(crate) fn blank(s: &str) -> (r: bool)
    ensures
        r == is_blank(s@),
{
    let cs = chars_of(s);
    let mut i: usize = 0;
    while i < cs.len()
        invariant
            i <= cs@.len(),
            cs@ == s@,
            forall|j: int| 0 <= j < i ==> is_unicode_ws(#[trigger] cs@[j]),
        decreases cs.len() - i,
    {
        if !crate::portal::unicode_ws(cs[i]) {
            return false;
        }
        i = i + 1;
    }
    true
}

fn same_text(a: &str, b: &str) -> (r: bool)
    ensures
        r == (a@ == b@),
{
    let x = chars_of(a);
    let y = chars_of(b);
    if x.len() != y.len() {
        return false;
    }
    let mut i: usize = 0;
    while i < x.len()
        invariant
            i <= x@.len(),
            x@.len() == y@.len(),
            x@ == a@,
            y@ == b@,
            forall|j: int| 0 <= j < i ==> x@[j] == y@[j],
        decreases x.len() - i,
    {
        if x[i] != y[i] {
            return false;
        }
        i = i + 1;
    }
    assert(x@ =~= y@);
    true
}

impl Config {
    /// Checks the configuration; the error is the first rule broken.
    pub fn validate(&self) -> (r: Result<(), ConfigError>)
        ensures
            match r {
                Ok(()) => spec_validate(*self) is None,
                Err(e) => spec_validate(*self) == Some(error_view(e)),
            },
    {
        if blank(self.account.student_id.as_str()) {
            return Err(ConfigError::EmptyStudentId);
        }
        if self.heartbeat.enabled && !same_text(self.heartbeat.module.as_str(), HEARTBEAT_MODULE_GDUT) {
            return Err(ConfigError::BadHeartbeatModule(self.heartbeat.module.clone()));
        }
        if self.dial.probe_interval_secs < 5 {
            return Err(ConfigError::ProbeIntervalTooSmall);
        }
        if parse_http_probe_target(self.dial.http_probe_url.as_str()).is_none() {
            return Err(ConfigError::BadHttpProbeUrl(self.dial.http_probe_url.clone()));
        }
        let w = &self.wireless;
        if w.enabled {
            if parse_http_probe_target(w.portal_url.as_str()).is_none() {
                return Err(ConfigError::BadPortalUrl(w.portal_url.clone()));
            }
            let host = chars_of(w.probe_host.as_str());
            if parse_ipv4(host.as_slice()).is_none() {
                return Err(ConfigError::BadProbeHost(w.probe_host.clone()));
            }
            if w.takeover_after_secs < 1 || w.release_after_secs < 1 {
                return Err(ConfigError::BadWirelessDebounce);
            }
            if w.standby_metric > 9999 {
                return Err(ConfigError::StandbyMetricTooLarge);
            }
        }
        Ok(())
    }
}

/// Comment lines at the top of a sample configuration file.
pub const SAMPLE_HEADER: &'static str = "# HEMC (Higher Education Mega Center) auth server 10.0.3.2; Longdong/Dongfeng Road is 10.0.3.6\n# Heartbeat disabled by default; must verify via packet capture before enabling\n";

impl Config {
    /// The configuration of a sample file: the defaults with a placeholder
    /// student ID and no password.
    pub fn sample_config() -> (r: Config)
        ensures
            r.account.student_id@ == "your_student_id"@,
            r.account.password_blob@ == Seq::<char>::empty(),
            is_default_dial(r.dial),
            is_default_heartbeat(r.heartbeat),
            is_default_log(r.log),
            is_default_wireless(r.wireless),
    {
        let mut cfg = Config::default();
        cfg.account.student_id = String::from_str("your_student_id");
        cfg.account.password_blob = String::new();
        cfg
    }
}

} // verus!
