//! Tray icon semantics: which icon a snapshot shows and the generated
//! square icons themselves (the tray, menu and window live in the shell).

use vstd::prelude::*;

use crate::protocol::{NetMode, StateSnapshot};
use crate::status::{spec_status_line_zh, spec_view, status_line_zh, view, Light};
use crate::text::{push_char, push_str};

verus! {

/// Side of the square icon in pixels.
pub const ICON_SIZE: usize = 32;

/// Meaning of the tray icon.
#[derive(Debug, Clone, Copy, PartialEq, Eq, Structural)]
pub enum IconKind {
    /// Wired PPP session up.
    WiredUp,
    /// Wireless takeover online.
    WirelessUp,
    /// Redial backoff, authentication failure or dialing.
    Backoff,
    /// Idle or no snapshot.
    Down,
}

/// Colour of an icon: green, blue, yellow, grey.
pub open spec fn spec_color(k: IconKind) -> [u8; 3] {
    match k {
        IconKind::WiredUp => [0x2e, 0xc4, 0x8a],
        IconKind::WirelessUp => [0x30, 0x9c, 0xdc],
        IconKind::Backoff => [0xe0, 0xb0, 0x00],
        IconKind::Down => [0x88, 0x88, 0x88],
    }
}

/// Position of an icon in the prebuilt icon list.
pub open spec fn spec_index(k: IconKind) -> usize {
    match k {
        IconKind::WiredUp => 0,
        IconKind::WirelessUp => 1,
        IconKind::Backoff => 2,
        IconKind::Down => 3,
    }
}

impl IconKind {
    /// All kinds, in the order the icons are built.
    pub fn all() -> (r: [IconKind; 4])
        ensures
            forall|i: int| 0 <= i < 4 ==> spec_index(#[trigger] r@[i]) == i,
    {
        [IconKind::WiredUp, IconKind::WirelessUp, IconKind::Backoff, IconKind::Down]
    }

    /// Colour of the icon.
    pub fn color(self) -> (r: [u8; 3])
        ensures
            r == spec_color(self),
    {
        match self {
            IconKind::WiredUp => [0x2e, 0xc4, 0x8a],
            IconKind::WirelessUp => [0x30, 0x9c, 0xdc],
            IconKind::Backoff => [0xe0, 0xb0, 0x00],
            IconKind::Down => [0x88, 0x88, 0x88],
        }
    }

    /// Position in the prebuilt icon list.
    pub fn index(self) -> (r: usize)
        ensures
            r == spec_index(self),
    {
        match self {
            IconKind::WiredUp => 0,
            IconKind::WirelessUp => 1,
            IconKind::Backoff => 2,
            IconKind::Down => 3,
        }
    }
}

/// Icon of a status light.
pub open spec fn spec_icon_of_light(l: Light) -> IconKind {
    match l {
        Light::Wired => IconKind::WiredUp,
        Light::Wireless => IconKind::WirelessUp,
        Light::Busy => IconKind::Backoff,
        Light::Off => IconKind::Down,
    }
}

/// Icon of a snapshot: the status light decides.
pub fn icon_kind(s: Option<&StateSnapshot>) -> (r: IconKind)
    ensures
        r == spec_icon_of_light(
            spec_view(
                match s {
                    None => None,
                    Some(x) => Some(*x),
                },
            ).light,
        ),
{
    match view(s).light {
        Light::Wired => IconKind::WiredUp,
        Light::Wireless => IconKind::WirelessUp,
        Light::Busy => IconKind::Backoff,
        Light::Off => IconKind::Down,
    }
}

/// Opaque inside a 2-pixel transparent margin.
pub open spec fn alpha_at(x: int, y: int) -> u8 {
    if 2 <= x < 30 && 2 <= y < 30 {
        0xff
    } else {
        0x00
    }
}

/// Byte `i` of the 32x32 RGBA square of colour `c`: row-major pixels,
/// each `r, g, b, a`.
pub open spec fn icon_byte(c: [u8; 3], i: int) -> u8 {
    let p = i / 4;
    let x = p % 32;
    let y = p / 32;
    let k = i % 4;
    if k == 0 {
        c[0]
    } else if k == 1 {
        c[1]
    } else if k == 2 {
        c[2]
    } else {
        alpha_at(x, y)
    }
}

proof fn lemma_pixel(y: int, x: int, j: int)
    by (nonlinear_arith)
    requires
        0 <= x < 32,
        0 <= y,
        0 <= j < 4,
    ensures
        (128 * y + 4 * x + j) / 4 == 32 * y + x,
        (128 * y + 4 * x + j) % 4 == j,
        (32 * y + x) % 32 == x,
        (32 * y + x) / 32 == y,
{
}

/// 32x32 RGBA square of the colour with a transparent 2-pixel margin.
pub fn icon_rgba(color: [u8; 3]) -> (r: Vec<u8>)
    ensures
        r@.len() == 4096,
        forall|i: int| 0 <= i < 4096 ==> #[trigger] r@[i] == icon_byte(color, i),
{
    let mut rgba: Vec<u8> = Vec::new();
    let mut y: usize = 0;
    while y < ICON_SIZE
        invariant
            y <= 32,
            rgba@.len() == 128 * y,
            forall|i: int| 0 <= i < rgba@.len() ==> #[trigger] rgba@[i] == icon_byte(color, i),
        decreases 32 - y,
    {
        let mut x: usize = 0;
        while x < ICON_SIZE
            invariant
                y < 32,
                x <= 32,
                rgba@.len() == 128 * y + 4 * x,
                forall|i: int| 0 <= i < rgba@.len() ==> #[trigger] rgba@[i] == icon_byte(color, i),
            decreases 32 - x,
        {
            let a: u8 = if 2 <= x && x < 30 && 2 <= y && y < 30 {
                0xff
            } else {
                0x00
            };
            let base = 128 * y + 4 * x;
            proof {
                lemma_pixel(y as int, x as int, 0);
                lemma_pixel(y as int, x as int, 1);
                lemma_pixel(y as int, x as int, 2);
                lemma_pixel(y as int, x as int, 3);
            }
            rgba.push(color[0]);
            rgba.push(color[1]);
            rgba.push(color[2]);
            rgba.push(a);
            x = x + 1;
        }
        y = y + 1;
    }
    rgba
}

/// What the service manager says of the installation.
#[derive(Debug, Clone, PartialEq, Eq)]
pub enum InstallState {
    Installed { service_exe: String, version: Option<String> },
    NotInstalled,
    /// The query failed.
    Unknown,
}

/// What a double click on the program (no arguments, no console) does.
#[derive(Debug, Clone, Copy, PartialEq, Eq)]
pub enum DoubleClick {
    /// Start the tray and open the panel.
    RunTray,
    /// Show a message that points to the installer.
    InstallHint,
}

/// Installed: the tray; otherwise, and also when the query failed, the
/// install hint (starting a tray without a service would only wait).
pub fn double_click_action(state: &InstallState) -> (r: DoubleClick)
    ensures
        r == (if state is Installed {
            DoubleClick::RunTray
        } else {
            DoubleClick::InstallHint
        }),
{
    match state {
        InstallState::Installed { .. } => DoubleClick::RunTray,
        InstallState::NotInstalled | InstallState::Unknown => DoubleClick::InstallHint,
    }
}

/// What the tray shows for the latest snapshot (`None`: no service).
pub struct TrayView {
    /// First menu line.
    pub status: String,
    /// "Wired first" check mark.
    pub exclusive_checked: bool,
    /// "Wired plus wireless standby" check mark.
    pub standby_checked: bool,
    pub icon: IconKind,
    /// `gdut-net — <status>`.
    pub tooltip: String,
}

/// The snapshot as an optional value.
pub open spec fn opt_snapshot(s: Option<&StateSnapshot>) -> Option<StateSnapshot> {
    match s {
        None => None,
        Some(x) => Some(*x),
    }
}

/// The tray for a snapshot: the status line in the menu and the tooltip,
/// the check mark on the current mode (the default mode without a
/// snapshot), and the icon of the status light.
pub fn tray_view(s: Option<&StateSnapshot>) -> (r: TrayView)
    ensures
        r.status@ == spec_status_line_zh(opt_snapshot(s)),
        r.tooltip@ == "gdut-net — "@ + spec_status_line_zh(opt_snapshot(s)),
        r.exclusive_checked == match s {
            None => true,
            Some(x) => x.mode == NetMode::WiredExclusive,
        },
        r.standby_checked == match s {
            None => false,
            Some(x) => x.mode == NetMode::WiredPlusStandby,
        },
        r.icon == spec_icon_of_light(spec_view(opt_snapshot(s)).light),
{
    let status = status_line_zh(s);
    let mut tooltip = String::from_str("gdut-net — ");
    push_str(&mut tooltip, status.as_str());
    let mode = match s {
        None => NetMode::WiredExclusive,
        Some(x) => x.mode,
    };
    TrayView {
        status,
        exclusive_checked: mode == NetMode::WiredExclusive,
        standby_checked: mode == NetMode::WiredPlusStandby,
        icon: icon_kind(s),
        tooltip,
    }
}

/// Registry name of the tray autostart entry (HKCU Run).
pub const AUTOSTART_VALUE_NAME: &'static str = "gdut-net-tray";

/// Command of the tray autostart entry: the quoted program, then `tray`.
pub fn autostart_command(tray_exe: &str) -> (r: String)
    ensures
        r@ == seq!['"'] + tray_exe@ + "\" tray"@,
{
    let mut r = String::new();
    push_char(&mut r, '"');
    push_str(&mut r, tray_exe);
    push_str(&mut r, "\" tray");
    proof {
        reveal_strlit("\" tray");
    }
    assert(r@ =~= seq!['"'] + tray_exe@ + "\" tray"@);
    r
}

/// Life of the daily window. The window toolkit allows one event loop
/// per process, so once the window's loop has ended no window can be made
/// again.
#[derive(Debug, Clone, PartialEq, Eq)]
pub enum GuiPhase {
    /// Not made yet (or its thread could not start; a retry may).
    Absent,
    /// Being made: the window shows itself when it appears.
    Starting,
    /// The window thread lives (the window may be hidden).
    Live,
    /// The event loop has ended, with the reason.
    Dead(String),
}

/// What a request to show the window does.
#[derive(Debug, Clone, Copy, PartialEq, Eq, Structural)]
pub enum ShowAction {
    /// Show and focus the existing window.
    Focus,
    /// Start the window thread.
    Spawn,
    /// Nothing: it is being made.
    Wait,
    /// Nothing can be shown any more (logged).
    Unavailable,
}

/// A request to show the window: the first one starts the window thread
/// (only one does, whatever comes while it starts), a live window is
/// focused, and after the end nothing happens.
pub fn on_show(phase: &mut GuiPhase) -> (r: ShowAction)
    ensures
        match *old(phase) {
            GuiPhase::Absent => r == ShowAction::Spawn && *final(phase) == GuiPhase::Starting,
            GuiPhase::Starting => r == ShowAction::Wait && *final(phase) == *old(phase),
            GuiPhase::Live => r == ShowAction::Focus && *final(phase) == *old(phase),
            GuiPhase::Dead(_) => r == ShowAction::Unavailable && *final(phase) == *old(phase),
        },
{
    match phase {
        GuiPhase::Absent => {
            *phase = GuiPhase::Starting;
            ShowAction::Spawn
        },
        GuiPhase::Starting => ShowAction::Wait,
        GuiPhase::Live => ShowAction::Focus,
        GuiPhase::Dead(_) => ShowAction::Unavailable,
    }
}

/// The window thread could not start: a later request may retry.
pub fn on_spawn_failed(phase: &mut GuiPhase)
    ensures
        *old(phase) == GuiPhase::Starting ==> *final(phase) == GuiPhase::Absent,
        *old(phase) != GuiPhase::Starting ==> *final(phase) == *old(phase),
{
    match phase {
        GuiPhase::Starting => {
            *phase = GuiPhase::Absent;
        },
        _ => {},
    }
}

/// The window appeared.
pub fn on_window_ready(phase: &mut GuiPhase)
    ensures
        *old(phase) is Dead ==> *final(phase) == *old(phase),
        !(*old(phase) is Dead) ==> *final(phase) == GuiPhase::Live,
{
    match phase {
        GuiPhase::Dead(_) => {},
        _ => {
            *phase = GuiPhase::Live;
        },
    }
}

/// The window's event loop returned, normally or not: the end, for good.
pub fn on_window_exit(phase: &mut GuiPhase, reason: String)
    ensures
        *final(phase) == GuiPhase::Dead(reason),
{
    *phase = GuiPhase::Dead(reason);
}

} // verus!
