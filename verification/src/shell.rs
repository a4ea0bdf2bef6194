//! Installed shell integration: what goes into the "Apps & features"
//! uninstall entry, the shortcut file names, and the helper script that
//! removes the install directory after the installer has exited. The COM,
//! registry and process calls are made by the shell.

use vstd::prelude::*;

use crate::text::{push_char, push_str};

verus! {

/// Start Menu folder of the shortcuts.
pub const START_MENU_FOLDER: &'static str = "GDUT Net";

/// Registry key of the uninstall entry (under HKLM).
pub const UNINSTALL_SUBKEY: &'static str = "SOFTWARE\\Microsoft\\Windows\\CurrentVersion\\Uninstall\\gdut-net";

/// A registry value.
#[derive(Debug, Clone, PartialEq, Eq)]
pub enum RegValue {
    Sz(String),
    Dword(u32),
}

/// A registry value as a value.
pub enum RegValueView {
    Sz(Seq<char>),
    Dword(u32),
}

/// The value of a registry value.
pub open spec fn reg_view(v: RegValue) -> RegValueView {
    match v {
        RegValue::Sz(s) => RegValueView::Sz(s@),
        RegValue::Dword(d) => RegValueView::Dword(d),
    }
}

/// File name of the main program in the install directory.
pub const MAIN_EXE: &'static str = "gdut-net.exe";

/// File name of the installer in the install directory.
pub const SETUP_EXE: &'static str = "gdut-net-setup.exe";

/// A file `name` inside the Windows directory `dir`, as a path: a backslash
/// goes between them unless `dir` is empty, already ends with a separator,
/// or is only a drive (`C:`), as `Path::join` does on Windows.
pub open spec fn spec_join(dir: Seq<char>, name: Seq<char>) -> Seq<char> {
    if dir.len() == 0 || dir.last() == '\\' || dir.last() == '/' || (dir.len() == 2 && dir[1] == ':') {
        dir + name
    } else {
        dir + seq!['\\'] + name
    }
}

/// The path of the file `name` inside the Windows directory `dir`.
pub fn join(dir: &str, name: &str) -> (r: String)
    ensures
        r@ == spec_join(dir@, name@),
{
    let cs = crate::text::chars_of(dir);
    let n = cs.len();
    let mut out = String::from_str(dir);
    if !(n == 0 || cs[n - 1] == '\\' || cs[n - 1] == '/' || (n == 2 && cs[1] == ':')) {
        push_char(&mut out, '\\');
    }
    push_str(&mut out, name);
    assert(out@ =~= spec_join(dir@, name@));
    out
}

/// The uninstall entry: display name, version, location, the main program
/// in the install directory as icon, the interactive and the quiet
/// uninstall commands (the installer in the install directory, quoted,
/// then its flags), and no modify or repair buttons.
pub open spec fn spec_uninstall_values(install_dir: Seq<char>, version: Seq<char>) -> Seq<(Seq<char>, RegValueView)> {
    let setup = spec_join(install_dir, SETUP_EXE@);
    seq![
        ("DisplayName"@, RegValueView::Sz("GDUT Net"@)),
        ("DisplayVersion"@, RegValueView::Sz(version)),
        ("InstallLocation"@, RegValueView::Sz(install_dir)),
        ("DisplayIcon"@, RegValueView::Sz(spec_join(install_dir, MAIN_EXE@))),
        ("UninstallString"@, RegValueView::Sz(seq!['"'] + setup + "\" --uninstall"@)),
        ("QuietUninstallString"@, RegValueView::Sz(seq!['"'] + setup + "\" --silent --uninstall"@)),
        ("NoModify"@, RegValueView::Dword(1)),
        ("NoRepair"@, RegValueView::Dword(1)),
    ]
}

fn quoted_with(path: &str, flags: &str) -> (r: String)
    ensures
        r@ == seq!['"'] + path@ + seq!['"'] + flags@,
{
    let mut s = String::new();
    push_char(&mut s, '"');
    push_str(&mut s, path);
    push_char(&mut s, '"');
    push_str(&mut s, flags);
    assert(s@ =~= seq!['"'] + path@ + seq!['"'] + flags@);
    s
}

/// The uninstall entry for the install directory `install_dir` at `version`.
pub fn uninstall_values(install_dir: &str, version: &str) -> (r: Vec<(&'static str, RegValue)>)
    ensures
        r@.len() == 8,
        forall|i: int|
            0 <= i < 8 ==> ((#[trigger] r@[i]).0@, reg_view(r@[i].1)) == spec_uninstall_values(
                install_dir@,
                version@,
            )[i],
{
    let icon = join(install_dir, MAIN_EXE);
    let setup = join(install_dir, SETUP_EXE);
    let uninstall = quoted_with(setup.as_str(), " --uninstall");
    let quiet = quoted_with(setup.as_str(), " --silent --uninstall");
    proof {
        reveal_strlit(" --uninstall");
        reveal_strlit("\" --uninstall");
        reveal_strlit(" --silent --uninstall");
        reveal_strlit("\" --silent --uninstall");
    }
    assert(uninstall@ =~= seq!['"'] + setup@ + "\" --uninstall"@);
    assert(quiet@ =~= seq!['"'] + setup@ + "\" --silent --uninstall"@);
    let r = vec![
        ("DisplayName", RegValue::Sz(String::from_str("GDUT Net"))),
        ("DisplayVersion", RegValue::Sz(String::from_str(version))),
        ("InstallLocation", RegValue::Sz(String::from_str(install_dir))),
        ("DisplayIcon", RegValue::Sz(icon)),
        ("UninstallString", RegValue::Sz(uninstall)),
        ("QuietUninstallString", RegValue::Sz(quiet)),
        ("NoModify", RegValue::Dword(1)),
        ("NoRepair", RegValue::Dword(1)),
    ];
    r
}

/// File name of a shortcut: its name plus `.lnk`.
pub fn link_file_name(name: &str) -> (r: String)
    ensures
        r@ == name@ + ".lnk"@,
{
    let mut s = String::from_str(name);
    push_str(&mut s, ".lnk");
    s
}

/// The cmd script that removes `dir` once the installer has let go of it:
/// up to 90 tries about a second apart, stopping as soon as it is gone.
pub open spec fn spec_removal_script(dir: Seq<char>) -> Seq<char> {
    "@echo off & for /l %i in (1,1,90) do (rmdir /s /q \""@ + dir
        + "\" 2>nul & if not exist \""@ + dir
        + "\" exit /b & ping -n 2 127.0.0.1 >nul)"@
}

/// The removal script for `dir`.
pub fn removal_script(dir: &str) -> (r: String)
    ensures
        r@ == spec_removal_script(dir@),
{
    let mut s = String::from_str("@echo off & for /l %i in (1,1,90) do (rmdir /s /q \"");
    push_str(&mut s, dir);
    push_str(&mut s, "\" 2>nul & if not exist \"");
    push_str(&mut s, dir);
    push_str(&mut s, "\" exit /b & ping -n 2 127.0.0.1 >nul)");
    s
}

} // verus!
