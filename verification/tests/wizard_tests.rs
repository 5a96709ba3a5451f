use inno_creed::install::InstallResult;
use inno_creed::platform::Platform;
use inno_creed::wizard::{
    first_existing_candidate, korean_font_candidates, wants_uninstall, window_title, Action, Event,
    InstallerApp, Screen,
};

fn strings(v: &[&str]) -> Vec<String> {
    v.iter().map(|s| s.to_string()).collect()
}

fn app(platform: Platform, exists: Vec<bool>) -> InstallerApp {
    InstallerApp::new(platform, strings(&["/a/cfg.json", "/b/cfg.json"]), exists, "/inst".to_string())
}

fn result(ext: bool) -> InstallResult {
    InstallResult {
        exe_path: "/inst/inno-creed".to_string(),
        extension_dir: if ext { Some("/inst/extension".to_string()) } else { None },
        backup_path: None,
    }
}

#[test]
fn detects_first_existing_config() {
    let a = app(Platform::Other, vec![false, true]);
    assert_eq!(a.screen, Screen::Welcome);
    assert_eq!(a.config_path, Some("/b/cfg.json".to_string()));
    assert_eq!(a.config_candidates, strings(&["/a/cfg.json", "/b/cfg.json"]));
    assert_eq!(app(Platform::Other, vec![true, true]).config_path, Some("/a/cfg.json".to_string()));
    assert_eq!(app(Platform::Other, vec![false, false]).config_path, None);
    assert_eq!(app(Platform::Other, vec![false]).config_path, None);
    assert_eq!(first_existing_candidate(&strings(&["x", "y"]), &vec![false, true]), Some("y".to_string()));
}

#[test]
fn uninstall_wizard_starts_on_uninstall_screen() {
    let a = InstallerApp::new_uninstall(Platform::Windows, strings(&["/c"]), vec![true], "/inst".into());
    assert_eq!(a.screen, Screen::UninstallConfirm);
    assert_eq!(a.config_path, Some("/c".to_string()));
    assert_eq!(a.install_result, None);
    assert_eq!(a.doctor_output, None);
}

#[test]
fn full_install_with_extension_on_windows() {
    let mut a = app(Platform::Windows, vec![true, false]);
    assert_eq!(a.step(Event::Next), vec![Action::CheckPayload]);
    assert_eq!(a.screen, Screen::Welcome);
    assert!(a.step(Event::PayloadChecked(Ok(()))).is_empty());
    assert_eq!(a.screen, Screen::Confirm);
    assert_eq!(a.step(Event::Install), vec![Action::CheckDesktopApp]);
    assert!(a.step(Event::DesktopAppRunning(true)).is_empty());
    assert_eq!(a.screen, Screen::AppRunning);
    assert_eq!(a.step(Event::Recheck), vec![Action::CheckDesktopApp]);
    assert!(a.step(Event::DesktopAppRunning(true)).is_empty());
    assert_eq!(a.screen, Screen::AppRunning);
    assert_eq!(
        a.step(Event::DesktopAppRunning(false)),
        vec![Action::PerformInstall {
            config_path: "/a/cfg.json".to_string(),
            install_dir: "/inst".to_string()
        }]
    );
    assert_eq!(a.screen, Screen::Installing);
    assert_eq!(
        a.step(Event::InstallFinished(Ok(result(true)))),
        vec![Action::RegisterUninstallEntry { install_dir: "/inst".to_string() }]
    );
    assert_eq!(a.screen, Screen::ExtensionGuide);
    assert_eq!(a.install_result, Some(result(true)));
    assert_eq!(
        a.step(Event::OpenExtensionFolder),
        vec![Action::OpenPath("/inst/extension".to_string())]
    );
    assert_eq!(
        a.step(Event::OpenExtensionsPage),
        vec![Action::OpenUrl("chrome://extensions".to_string())]
    );
    assert_eq!(
        a.step(Event::Next),
        vec![Action::RunDoctor { exe_path: "/inst/inno-creed".to_string() }]
    );
    assert_eq!(a.screen, Screen::Done);
    assert!(a.step(Event::DoctorFinished(Ok("…\n✅ 인증 성공\n".to_string()))).is_empty());
    assert!(a.doctor_ok);
    assert_eq!(a.doctor_output, Some("…\n✅ 인증 성공\n".to_string()));
}

#[test]
fn install_without_extension_goes_to_done_and_runs_doctor() {
    let mut a = app(Platform::Other, vec![true, false]);
    a.step(Event::PayloadChecked(Ok(())));
    a.step(Event::DesktopAppRunning(false));
    assert_eq!(a.screen, Screen::Installing);
    assert_eq!(
        a.step(Event::InstallFinished(Ok(result(false)))),
        vec![Action::RunDoctor { exe_path: "/inst/inno-creed".to_string() }]
    );
    assert_eq!(a.screen, Screen::Done);
    assert!(a.step(Event::DoctorFinished(Ok("⚠️ 인증 실패".to_string()))).is_empty());
    assert!(!a.doctor_ok);
    assert_eq!(a.doctor_output, Some("⚠️ 인증 실패".to_string()));
}

#[test]
fn doctor_runs_once_and_failure_is_reported() {
    let mut a = app(Platform::Other, vec![true, false]);
    a.step(Event::PayloadChecked(Ok(())));
    a.step(Event::DesktopAppRunning(false));
    a.step(Event::InstallFinished(Ok(result(false))));
    a.step(Event::DoctorFinished(Err("not found".to_string())));
    assert_eq!(a.doctor_output, Some("doctor 실행 실패: not found".to_string()));
    assert!(!a.doctor_ok);
    // A second report changes nothing.
    a.step(Event::DoctorFinished(Ok("✅ 인증 성공".to_string())));
    assert_eq!(a.doctor_output, Some("doctor 실행 실패: not found".to_string()));
    assert!(!a.doctor_ok);
    // The details box toggles; the done screen stays.
    assert!(!a.doctor_expanded);
    a.step(Event::ToggleDetails);
    assert!(a.doctor_expanded);
    a.step(Event::ToggleDetails);
    assert!(!a.doctor_expanded);
    for e in [Event::Next, Event::Back, Event::Remove, Event::DesktopAppRunning(false)] {
        assert!(a.step(e).is_empty());
        assert_eq!(a.screen, Screen::Done);
    }
}

#[test]
fn payload_error_then_back_to_start() {
    let mut a = app(Platform::Other, vec![true, false]);
    a.step(Event::PayloadChecked(Err("payload 폴더가 없습니다".to_string())));
    assert_eq!(a.screen, Screen::Error("payload 폴더가 없습니다".to_string()));
    assert!(a.step(Event::Next).is_empty());
    assert!(a.step(Event::Back).is_empty());
    assert_eq!(a.screen, Screen::Welcome);
    assert_eq!(a.config_path, Some("/a/cfg.json".to_string()));
}

#[test]
fn install_failure_message() {
    let mut a = app(Platform::Other, vec![true, false]);
    a.step(Event::PayloadChecked(Ok(())));
    a.step(Event::DesktopAppRunning(false));
    assert!(a.step(Event::InstallFinished(Err("disk full".to_string()))).is_empty());
    assert_eq!(a.screen, Screen::Error("설치 중 오류가 발생했습니다: disk full".to_string()));
}

#[test]
fn install_needs_a_config_file() {
    let mut a = app(Platform::Other, vec![false, false]);
    a.step(Event::PayloadChecked(Ok(())));
    assert!(a.step(Event::Install).is_empty());
    assert!(a.step(Event::DesktopAppRunning(false)).is_empty());
    assert_eq!(a.screen, Screen::Confirm);
    assert_eq!(a.step(Event::ChooseConfig), vec![Action::PickConfigFile]);
    assert!(a.step(Event::ConfigChosen(None)).is_empty());
    assert_eq!(a.config_path, None);
    a.step(Event::ConfigChosen(Some("/picked.json".to_string())));
    assert_eq!(a.config_path, Some("/picked.json".to_string()));
    assert_eq!(a.step(Event::Install), vec![Action::CheckDesktopApp]);
    assert_eq!(
        a.step(Event::DesktopAppRunning(false)),
        vec![Action::PerformInstall {
            config_path: "/picked.json".to_string(),
            install_dir: "/inst".to_string()
        }]
    );
}

#[test]
fn chosen_folder_gets_an_inno_creed_subfolder() {
    let mut a = app(Platform::Other, vec![true, false]);
    a.step(Event::PayloadChecked(Ok(())));
    assert_eq!(a.step(Event::ChooseFolder), vec![Action::PickFolder]);
    a.step(Event::FolderChosen(None));
    assert_eq!(a.install_dir, "/inst");
    a.step(Event::FolderChosen(Some("/opt".to_string())));
    assert_eq!(a.install_dir, format!("/opt{}inno-creed", std::path::MAIN_SEPARATOR));
    assert!(a.step(Event::Back).is_empty());
    assert_eq!(a.screen, Screen::Welcome);
}

#[test]
fn back_from_app_running() {
    let mut a = app(Platform::Other, vec![true, false]);
    a.step(Event::PayloadChecked(Ok(())));
    a.step(Event::DesktopAppRunning(true));
    assert_eq!(a.screen, Screen::AppRunning);
    a.step(Event::Back);
    assert_eq!(a.screen, Screen::Confirm);
}

#[test]
fn uninstall_flow_on_windows() {
    let mut a = InstallerApp::new_uninstall(Platform::Windows, strings(&["/c"]), vec![true], "/inst".into());
    assert_eq!(a.step(Event::Remove), vec![Action::CheckDesktopApp]);
    assert!(a.step(Event::DesktopAppRunning(true)).is_empty());
    assert_eq!(a.screen, Screen::UninstallAppRunning);
    assert_eq!(a.step(Event::Recheck), vec![Action::CheckDesktopApp]);
    let copy = format!("/inst{}installer.exe", std::path::MAIN_SEPARATOR);
    assert_eq!(
        a.step(Event::DesktopAppRunning(false)),
        vec![Action::PerformUninstall {
            config_path: "/c".to_string(),
            install_dir: "/inst".to_string(),
            installer_copy: copy.clone(),
        }]
    );
    assert_eq!(a.screen, Screen::UninstallDone);
    assert_eq!(
        a.step(Event::UninstallFinished(Ok(()))),
        vec![
            Action::RemoveUninstallEntry,
            Action::ScheduleSelfDelete { installer_copy: copy, install_dir: "/inst".to_string() },
        ]
    );
    assert_eq!(a.screen, Screen::UninstallDone);
}

#[test]
fn uninstall_failure_is_shown() {
    let mut a = InstallerApp::new_uninstall(Platform::Other, strings(&["/c"]), vec![true], "/inst".into());
    a.step(Event::DesktopAppRunning(false));
    assert!(a.step(Event::UninstallFinished(Err("locked".to_string()))).is_empty());
    assert_eq!(a.screen, Screen::Error("제거 중 오류가 발생했습니다: locked".to_string()));
    assert_eq!(a.install_dir, "/inst");
}

#[test]
fn uninstall_without_config_still_removes_files() {
    let copy = format!("/inst{}installer.exe", std::path::MAIN_SEPARATOR);
    let mut a = InstallerApp::new_uninstall(Platform::Windows, strings(&["/c"]), vec![false], "/inst".into());
    assert_eq!(
        a.step(Event::DesktopAppRunning(false)),
        vec![
            Action::RemoveUninstallEntry,
            Action::ScheduleSelfDelete { installer_copy: copy.clone(), install_dir: "/inst".to_string() },
        ]
    );
    assert_eq!(a.screen, Screen::UninstallDone);
    assert!(a.step(Event::UninstallFinished(Ok(()))).is_empty());

    let mut b = InstallerApp::new_uninstall(Platform::Other, strings(&["/c"]), vec![false], "/inst".into());
    assert_eq!(
        b.step(Event::DesktopAppRunning(false)),
        vec![Action::ScheduleSelfDelete { installer_copy: copy, install_dir: "/inst".to_string() }]
    );
}

#[test]
fn doctor_answer_without_installation_is_ignored() {
    let mut a = app(Platform::Other, vec![true, false]);
    a.screen = Screen::Done;
    assert!(a.step(Event::DoctorFinished(Ok("✅ 인증 성공".to_string()))).is_empty());
    assert_eq!(a.doctor_output, None);
    assert!(!a.doctor_ok);
}

#[test]
fn uninstall_screens_never_lead_to_installing() {
    let mut a = InstallerApp::new_uninstall(Platform::Other, strings(&["/c"]), vec![true], "/inst".into());
    for e in [Event::Next, Event::Install, Event::Back, Event::PayloadChecked(Ok(())), Event::InstallFinished(Ok(result(false)))] {
        assert!(a.step(e).is_empty());
        assert_eq!(a.screen, Screen::UninstallConfirm);
    }
}

#[test]
fn installer_arguments_and_title() {
    assert!(wants_uninstall(&strings(&["installer.exe", "--uninstall"])));
    assert!(!wants_uninstall(&strings(&["installer.exe"])));
    assert_eq!(window_title(true), "inno-creed 제거");
    assert_eq!(window_title(false), "inno-creed 설치");
    assert_eq!(korean_font_candidates().len(), 3);
    assert_eq!(korean_font_candidates()[0], "C:/Windows/Fonts/malgun.ttf");
}
