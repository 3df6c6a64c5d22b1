use ntfs_share_wizard::app::App;
use ntfs_share_wizard::linux::wizard::detected_system_details;
use ntfs_share_wizard::os::detect::detect_os;
use ntfs_share_wizard::os::OperatingSystem;
use ntfs_share_wizard::tui::{current_view, detected_system_view, key_hints, unsupported_view, Screen};
use ntfs_share_wizard::windows::system::WindowsAdminStatus;
use ntfs_share_wizard::windows::wizard::WindowsWizardState;

fn admin() -> WindowsAdminStatus {
    WindowsAdminStatus { is_elevated: false, summary: "ADMIN".to_owned() }
}

#[test]
fn operating_systems() {
    assert!(matches!(detect_os("windows"), OperatingSystem::Windows));
    assert!(matches!(detect_os("linux"), OperatingSystem::Linux));
    match detect_os("macos") {
        OperatingSystem::Unsupported(name) => assert_eq!(name, "macos"),
        _ => panic!(),
    }
    assert_eq!(OperatingSystem::Windows.display_name(), "Windows");
    assert_eq!(OperatingSystem::Linux.display_name(), "Linux");
    assert_eq!(OperatingSystem::Unsupported("freebsd".to_owned()).display_name(), "freebsd");
    let app = App::new(OperatingSystem::Linux);
    assert!(matches!(app.operating_system(), OperatingSystem::Linux));
}

#[test]
fn linux_detected_details() {
    let app = App::new(OperatingSystem::Linux);
    assert_eq!(
        detected_system_details(&app),
        "Detected Linux flow.\nSystem module: linux\nTarget mount point: /media/gamedisk"
    );
}

#[test]
fn screens() {
    let linux = App::new(OperatingSystem::Linux);
    let windows = App::new(OperatingSystem::Windows);
    let other = App::new(OperatingSystem::Unsupported("macos".to_owned()));
    let v = current_view(&linux, Screen::Welcome, None, &admin());
    assert_eq!(v.title, "Welcome");
    assert_eq!(v.body, "Press Enter to continue to the detected system flow.");
    let v = detected_system_view(&linux, &admin());
    assert_eq!(v.title, "Detected System");
    assert_eq!(v.body, detected_system_details(&linux));
    let v = current_view(&windows, Screen::DetectedSystem, None, &admin());
    assert_eq!(v.title, "Detected System");
    assert!(v.body.starts_with("[INFO] Fluxo detectado: Windows."));
    let v = detected_system_view(&other, &admin());
    assert_eq!(v.title, "Unsupported");
    assert_eq!(v.body, "Unsupported operating system detected: macos");
    let v = unsupported_view(&other);
    assert_eq!(v.body, "Unsupported operating system detected: macos");
    let v = unsupported_view(&linux);
    assert_eq!(v.title, "Unsupported");
    assert_eq!(v.body, "Unsupported screen reached unexpectedly for supported OS: Linux");
    let wizard = WindowsWizardState::new();
    let v = current_view(&windows, Screen::WindowsWizard, Some(&wizard), &admin());
    assert_eq!(v.title, "Windows | Fast Startup");
    let v = current_view(&windows, Screen::Unsupported, None, &admin());
    assert_eq!(v.body, "Unsupported screen reached unexpectedly for supported OS: Windows");
}

#[test]
fn screen_key_hints() {
    assert_eq!(key_hints(Screen::Welcome, None), "Enter: advance | q: quit");
    assert_eq!(
        key_hints(Screen::DetectedSystem, None),
        "Enter: keep current screen | Esc: back | q: quit"
    );
    assert_eq!(
        key_hints(Screen::Unsupported, None),
        "Enter: keep current screen | Esc: back | q: quit"
    );
    let wizard = WindowsWizardState::new();
    assert_eq!(
        key_hints(Screen::WindowsWizard, Some(&wizard)),
        "Enter confirmar | Esc voltar | q sair"
    );
    assert_eq!(key_hints(Screen::WindowsWizard, None), "q sair");
}

use ntfs_share_wizard::tui::{
    on_key, record_fast_startup, shows_admin_status, KeyInput, Navigation, UiAction,
};
use ntfs_share_wizard::windows::wizard::{WindowsCommandResult, WindowsScreen};

fn command_result() -> WindowsCommandResult {
    WindowsCommandResult {
        success: true,
        summary: "ok".to_owned(),
        stdout: String::new(),
        stderr: String::new(),
        exit_code: Some(0),
    }
}

#[test]
fn navigation_on_windows() {
    let os = OperatingSystem::Windows;
    let mut nav = Navigation::new();
    assert_eq!(nav.screen(), Screen::Welcome);
    assert!(!nav.should_quit());
    // releases and other keys change nothing
    assert_eq!(on_key(&mut nav, &os, KeyInput::Enter, false), UiAction::Redraw);
    assert_eq!(on_key(&mut nav, &os, KeyInput::Other, true), UiAction::Redraw);
    assert_eq!(nav.screen(), Screen::Welcome);
    assert!(!shows_admin_status(&nav, &os));
    assert_eq!(on_key(&mut nav, &os, KeyInput::Escape, true), UiAction::Redraw);
    assert_eq!(nav.screen(), Screen::Welcome);
    assert_eq!(on_key(&mut nav, &os, KeyInput::Enter, true), UiAction::Redraw);
    assert_eq!(nav.screen(), Screen::DetectedSystem);
    assert!(shows_admin_status(&nav, &os));
    on_key(&mut nav, &os, KeyInput::Enter, true);
    assert_eq!(nav.screen(), Screen::WindowsWizard);
    assert_eq!(nav.wizard().current_screen(), WindowsScreen::Explanation);
    assert!(!shows_admin_status(&nav, &os));
    on_key(&mut nav, &os, KeyInput::Enter, true);
    assert!(shows_admin_status(&nav, &os));
    on_key(&mut nav, &os, KeyInput::Enter, true);
    assert_eq!(nav.wizard().current_screen(), WindowsScreen::Execution);
    assert_eq!(on_key(&mut nav, &os, KeyInput::Enter, true), UiAction::RunFastStartup);
    assert_eq!(nav.wizard().current_screen(), WindowsScreen::Execution);
    record_fast_startup(&mut nav, command_result());
    assert_eq!(nav.wizard().current_screen(), WindowsScreen::Result);
    assert_eq!(nav.screen(), Screen::WindowsWizard);
    // back through the wizard and out of it
    for _ in 0..3 {
        on_key(&mut nav, &os, KeyInput::Escape, true);
        assert_eq!(nav.screen(), Screen::WindowsWizard);
    }
    assert_eq!(nav.wizard().current_screen(), WindowsScreen::Explanation);
    on_key(&mut nav, &os, KeyInput::Escape, true);
    assert_eq!(nav.screen(), Screen::DetectedSystem);
    on_key(&mut nav, &os, KeyInput::Escape, true);
    assert_eq!(nav.screen(), Screen::Welcome);
    assert_eq!(on_key(&mut nav, &os, KeyInput::Quit, true), UiAction::Quit);
    assert!(nav.should_quit());
}

#[test]
fn navigation_on_linux_stays_out_of_the_wizard() {
    let os = OperatingSystem::Linux;
    let mut nav = Navigation::new();
    on_key(&mut nav, &os, KeyInput::Enter, true);
    on_key(&mut nav, &os, KeyInput::Enter, true);
    assert_eq!(nav.screen(), Screen::DetectedSystem);
    assert!(!shows_admin_status(&nav, &os));
    assert_eq!(on_key(&mut nav, &os, KeyInput::Quit, false), UiAction::Redraw);
    assert!(!nav.should_quit());
}
