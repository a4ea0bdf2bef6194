//! Start Menu shortcuts: the list the installer creates. Targets are
//! relative to the install directory and must ship with the payload (or be
//! one of the files the packer adds).

use vstd::prelude::*;

verus! {

/// One Start Menu shortcut.
#[derive(Debug, Clone, Copy, PartialEq, Eq)]
pub struct Shortcut {
    pub name: &'static str,
    pub target: &'static str,
    pub args: &'static str,
    pub run_as_admin: bool,
}

/// Number of Start Menu shortcuts.
pub const SHORTCUT_COUNT: usize = 10;

/// Shortcut `i` as text: name, target, arguments, elevation.
pub open spec fn spec_shortcut(i: int) -> (Seq<char>, Seq<char>, Seq<char>, bool) {
    if i == 0 {
        ("GDUT Net"@, "gdut-net.exe"@, ""@, false)
    } else if i == 1 {
        ("状态查看"@, "status.bat"@, ""@, false)
    } else if i == 2 {
        ("回校模式"@, "campus.bat"@, ""@, true)
    } else if i == 3 {
        ("回家模式"@, "home.bat"@, ""@, true)
    } else if i == 4 {
        ("启动托盘"@, "gdut-net.exe"@, "tray"@, false)
    } else if i == 5 {
        ("无线体检"@, "wireless-test.bat"@, ""@, true)
    } else if i == 6 {
        ("打开日志"@, "open-logs.bat"@, ""@, false)
    } else if i == 7 {
        ("代理检查"@, "proxy-check.bat"@, ""@, false)
    } else if i == 8 {
        ("说明"@, "说明.txt"@, ""@, false)
    } else if i == 9 {
        ("卸载 GDUT Net"@, "gdut-net-setup.exe"@, "--uninstall"@, true)
    } else {
        (Seq::empty(), Seq::empty(), Seq::empty(), false)
    }
}

/// Text of a shortcut.
pub open spec fn shortcut_view(s: Shortcut) -> (Seq<char>, Seq<char>, Seq<char>, bool) {
    (s.name@, s.target@, s.args@, s.run_as_admin)
}

/// The Start Menu shortcuts, in menu order.
pub fn shortcuts() -> (r: Vec<Shortcut>)
    ensures
        r@.len() == SHORTCUT_COUNT,
        forall|i: int| 0 <= i < SHORTCUT_COUNT ==> shortcut_view(#[trigger] r@[i]) == spec_shortcut(i),
{
    let r = vec![
        Shortcut { name: "GDUT Net", target: "gdut-net.exe", args: "", run_as_admin: false },
        Shortcut { name: "状态查看", target: "status.bat", args: "", run_as_admin: false },
        Shortcut { name: "回校模式", target: "campus.bat", args: "", run_as_admin: true },
        Shortcut { name: "回家模式", target: "home.bat", args: "", run_as_admin: true },
        Shortcut { name: "启动托盘", target: "gdut-net.exe", args: "tray", run_as_admin: false },
        Shortcut { name: "无线体检", target: "wireless-test.bat", args: "", run_as_admin: true },
        Shortcut { name: "打开日志", target: "open-logs.bat", args: "", run_as_admin: false },
        Shortcut { name: "代理检查", target: "proxy-check.bat", args: "", run_as_admin: false },
        Shortcut { name: "说明", target: "说明.txt", args: "", run_as_admin: false },
        Shortcut { name: "卸载 GDUT Net", target: "gdut-net-setup.exe", args: "--uninstall", run_as_admin: true },
    ];
    r
}

/// Files the packer puts into the install directory besides the payload.
pub fn extra_targets() -> (r: Vec<&'static str>)
    ensures
        r@.len() == 2,
        r@[0]@ == "gdut-net.exe"@,
        r@[1]@ == "gdut-net-setup.exe"@,
{
    vec!["gdut-net.exe", "gdut-net-setup.exe"]
}

} // verus!
