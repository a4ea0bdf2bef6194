use gdut_net::config::Config;
use gdut_net::service::{
    check_install_password, config_path_from_args, launch_arguments, migrate_probe_url,
    needs_student_id, restart_delays_secs, stop_wait_step, strip_line_ending, InstallInputError,
    StopWait, DEFAULT_CONFIG_PATH,
};
use gdut_net::setup_args::Mode;
use gdut_net::setup_flow::{
    card_id, check_account_form, drain_result, home_page, initial_page, install_request, receipt_end,
    receipt_line, AccountFormError, Page, Progress, WORKER_LOST,
};
use gdut_net::shell::{join, link_file_name, removal_script, uninstall_values, RegValue};
use gdut_net::tray::{double_click_action, DoubleClick, InstallState};

#[test]
fn uninstall_entry_values() {
    let v = uninstall_values("C:\\Program Files\\gdut-net", "0.1.0");
    assert_eq!(v.len(), 8);
    assert_eq!(v[0], ("DisplayName", RegValue::Sz("GDUT Net".to_string())));
    assert_eq!(v[1], ("DisplayVersion", RegValue::Sz("0.1.0".to_string())));
    assert_eq!(v[2], ("InstallLocation", RegValue::Sz("C:\\Program Files\\gdut-net".to_string())));
    assert_eq!(
        v[4],
        (
            "UninstallString",
            RegValue::Sz("\"C:\\Program Files\\gdut-net\\gdut-net-setup.exe\" --uninstall".to_string())
        )
    );
    assert_eq!(
        v[5],
        (
            "QuietUninstallString",
            RegValue::Sz(
                "\"C:\\Program Files\\gdut-net\\gdut-net-setup.exe\" --silent --uninstall".to_string()
            )
        )
    );
    assert_eq!(
        v[3],
        ("DisplayIcon", RegValue::Sz("C:\\Program Files\\gdut-net\\gdut-net.exe".to_string()))
    );
    assert_eq!(v[6], ("NoModify", RegValue::Dword(1)));
    assert_eq!(v[7], ("NoRepair", RegValue::Dword(1)));
}

#[test]
fn shortcut_file_names_end_in_lnk() {
    assert_eq!(link_file_name("GDUT Net"), "GDUT Net.lnk");
    assert_eq!(link_file_name(""), ".lnk");
}

#[test]
fn removal_script_quotes_the_directory_twice() {
    assert_eq!(
        removal_script("C:\\gdut-net"),
        "@echo off & for /l %i in (1,1,90) do (rmdir /s /q \"C:\\gdut-net\" 2>nul & if not exist \"C:\\gdut-net\" exit /b & ping -n 2 127.0.0.1 >nul)"
    );
}

#[test]
fn install_refuses_an_empty_password() {
    assert_eq!(check_install_password(""), Err(InstallInputError::EmptyPassword));
    assert_eq!(check_install_password(" "), Ok(()));
    assert_eq!(check_install_password("secret"), Ok(()));
}

#[test]
fn install_asks_for_a_blank_student_id() {
    let mut cfg = Config::default();
    assert!(needs_student_id(&cfg));
    cfg.account.student_id = " \t".to_string();
    assert!(needs_student_id(&cfg));
    cfg.account.student_id = "3121000000".to_string();
    assert!(!needs_student_id(&cfg));
}

#[test]
fn legacy_probe_url_is_migrated() {
    let mut cfg = Config::default();
    cfg.dial.http_probe_url = "http://9.9.9.9".to_string();
    assert!(migrate_probe_url(&mut cfg.dial));
    assert_eq!(cfg.dial.http_probe_url, "http://223.5.5.5");
    assert!(!migrate_probe_url(&mut cfg.dial));
    cfg.dial.http_probe_url = "http://10.0.0.1".to_string();
    assert!(!migrate_probe_url(&mut cfg.dial));
    assert_eq!(cfg.dial.http_probe_url, "http://10.0.0.1");
}

#[test]
fn stdin_password_loses_only_its_line_ending() {
    assert_eq!(strip_line_ending("pw\r\n"), "pw");
    assert_eq!(strip_line_ending("pw\n\n"), "pw");
    assert_eq!(strip_line_ending(" pw \n"), " pw ");
    assert_eq!(strip_line_ending("\r\n"), "");
    assert_eq!(strip_line_ending("a\rb"), "a\rb");
}

#[test]
fn service_launch_arguments() {
    assert_eq!(
        launch_arguments("C:\\ProgramData\\gdut-net\\config.toml"),
        vec!["--config".to_string(), "C:\\ProgramData\\gdut-net\\config.toml".to_string(), "run".to_string()]
    );
    assert_eq!(restart_delays_secs(), vec![5, 30, 60]);
}

#[test]
fn service_config_path_comes_from_the_arguments() {
    let args = |v: &[&str]| v.iter().map(|s| s.to_string()).collect::<Vec<String>>();
    assert_eq!(config_path_from_args(&args(&["gdut-net.exe", "--config", "D:\\c.toml", "run"])), "D:\\c.toml");
    assert_eq!(config_path_from_args(&args(&["gdut-net.exe", "run"])), DEFAULT_CONFIG_PATH);
    assert_eq!(config_path_from_args(&args(&["gdut-net.exe", "--config"])), DEFAULT_CONFIG_PATH);
    assert_eq!(
        config_path_from_args(&args(&["x", "--config", "a", "--config", "b"])),
        "a"
    );
    assert_eq!(DEFAULT_CONFIG_PATH, "C:\\ProgramData\\gdut-net\\config.toml");
}

#[test]
fn uninstall_waits_ten_seconds_for_the_stop() {
    assert_eq!(stop_wait_step(true, 50_000), StopWait::Stopped);
    assert_eq!(stop_wait_step(false, 9_999), StopWait::Poll);
    assert_eq!(stop_wait_step(false, 10_000), StopWait::TimedOut);
}

#[test]
fn double_click_runs_the_tray_only_when_installed() {
    let installed = InstallState::Installed { service_exe: "C:\\x\\gdut-net.exe".to_string(), version: None };
    assert_eq!(double_click_action(&installed), DoubleClick::RunTray);
    assert_eq!(double_click_action(&InstallState::NotInstalled), DoubleClick::InstallHint);
    assert_eq!(double_click_action(&InstallState::Unknown), DoubleClick::InstallHint);
}

#[test]
fn progress_marks_the_latest_matching_step() {
    let mut p = Progress::new();
    p.on_step("启动服务".to_string());
    p.on_step("等待拨号结果".to_string());
    p.on_step_done("启动服务".to_string());
    assert_eq!(p.steps(), &vec![("启动服务".to_string(), true), ("等待拨号结果".to_string(), false)]);
    assert_eq!(p.status_line(), &None);
    p.on_step_done("等待拨号结果（Connected）".to_string());
    assert_eq!(
        p.steps(),
        &vec![("启动服务".to_string(), true), ("等待拨号结果（Connected）".to_string(), true)]
    );
    assert_eq!(p.status_line(), &Some("等待拨号结果（Connected）".to_string()));
    p.on_step_done("unknown".to_string());
    assert_eq!(p.steps().len(), 2);
}

#[test]
fn progress_prefers_the_latest_of_two_matches() {
    let mut p = Progress::new();
    p.on_step("a".to_string());
    p.on_step("a".to_string());
    p.on_step_done("ab".to_string());
    assert_eq!(p.steps(), &vec![("a".to_string(), false), ("ab".to_string(), true)]);
}

#[test]
fn drain_reports_a_lost_worker() {
    assert_eq!(drain_result(Some(Ok(())), true), Some(Ok(())));
    assert_eq!(drain_result(None, false), None);
    assert_eq!(drain_result(None, true), Some(Err(WORKER_LOST.to_string())));
    assert_eq!(WORKER_LOST, "安装线程意外退出，请查看日志。");
}

#[test]
fn sample_configuration_has_a_placeholder_id() {
    let c = Config::sample_config();
    assert_eq!(c.account.student_id, "your_student_id");
    assert_eq!(c.account.password_blob, "");
    assert_eq!(c.dial.entry_name, "gdut");
    assert_eq!(c.heartbeat.server, "10.0.3.2");
    assert!(gdut_net::config::SAMPLE_HEADER.starts_with("# HEMC"));
    assert!(c.validate().is_ok());
}

#[test]
fn setup_window_opens_on_the_page_of_its_mode() {
    assert_eq!(initial_page(Some(Mode::Repair), false), Page::Maintenance);
    assert_eq!(initial_page(Some(Mode::Uninstall), false), Page::Maintenance);
    assert_eq!(initial_page(Some(Mode::StartService), true), Page::StartService);
    assert_eq!(initial_page(Some(Mode::Gui), true), Page::Maintenance);
    assert_eq!(initial_page(Some(Mode::Gui), false), Page::Welcome);
    assert_eq!(initial_page(None, false), Page::Welcome);
    assert_eq!(home_page(true), Page::Maintenance);
    assert_eq!(home_page(false), Page::Welcome);
}

#[test]
fn account_form_needs_an_id_and_a_password() {
    assert_eq!(check_account_form("  ", "pw", false), Err(AccountFormError::MissingStudentId));
    assert_eq!(check_account_form("3124000000", "", false), Err(AccountFormError::MissingPassword));
    assert_eq!(check_account_form("3124000000", "", true), Ok(()));
    assert_eq!(check_account_form("3124000000", "pw", false), Ok(()));
    assert_eq!(AccountFormError::MissingStudentId.message(), "请填写学号。");
    assert_eq!(AccountFormError::MissingPassword.message(), "请填写密码，或勾选“使用现有密码”。");
}

#[test]
fn install_request_trims_the_id_and_keeps_the_password_choice() {
    let r = install_request(" 3124000000\t", "pw", false);
    assert_eq!(r.student_id, "3124000000");
    assert_eq!(r.password, Some("pw".to_string()));
    let r = install_request("3124000000", "pw", true);
    assert_eq!(r.password, None);
}

#[test]
fn receipt_and_card_texts() {
    assert_eq!(receipt_line("启动服务", true), "✓ 启动服务");
    assert_eq!(receipt_line("启动服务", false), "… 启动服务");
    assert_eq!(receipt_end(true), "发卡完成");
    assert_eq!(receipt_end(false), "发卡失败");
    assert_eq!(card_id("   "), "—");
    assert_eq!(card_id(" 3124000000 "), "3124000000");
}

#[test]
fn paths_join_like_windows() {
    assert_eq!(join("C:\\dir", "a.exe"), "C:\\dir\\a.exe");
    assert_eq!(join("C:\\dir\\", "a.exe"), "C:\\dir\\a.exe");
    assert_eq!(join("C:", "a.exe"), "C:a.exe");
    assert_eq!(join("", "a.exe"), "a.exe");
    let v = uninstall_values("D:\\apps\\", "1.2.3");
    assert_eq!(
        v[4],
        ("UninstallString", RegValue::Sz("\"D:\\apps\\gdut-net-setup.exe\" --uninstall".to_string()))
    );
}
