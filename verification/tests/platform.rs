use tray_companion::platform::{startup_plan, Platform, StartupPlan};
use tray_companion::AppSettings;

fn settings_with_launch(launch_at_startup: bool) -> AppSettings {
    AppSettings {
        jira_token: String::from("token"),
        clockwork_api_token: String::new(),
        jira_user: None,
        pin_icon_dismissed: false,
        launch_at_startup,
    }
}

#[test]
fn macos_lives_in_the_menu_bar() {
    assert_eq!(
        startup_plan(Platform::MacOs, &settings_with_launch(true)),
        StartupPlan {
            autostart: true,
            hide_dock_icon: true,
            drop_window_shadow: true,
            template_icon: true,
            tray_menu: false,
        }
    );
}

#[test]
fn linux_gets_a_tray_menu() {
    assert_eq!(
        startup_plan(Platform::Linux, &settings_with_launch(true)),
        StartupPlan {
            autostart: true,
            hide_dock_icon: false,
            drop_window_shadow: false,
            template_icon: false,
            tray_menu: true,
        }
    );
}

#[test]
fn windows_needs_nothing_extra() {
    assert_eq!(
        startup_plan(Platform::Windows, &settings_with_launch(false)),
        StartupPlan {
            autostart: false,
            hide_dock_icon: false,
            drop_window_shadow: false,
            template_icon: false,
            tray_menu: false,
        }
    );
}

#[test]
fn autostart_follows_the_preference() {
    for platform in [Platform::MacOs, Platform::Windows, Platform::Linux] {
        assert!(startup_plan(platform, &settings_with_launch(true)).autostart);
        assert!(!startup_plan(platform, &settings_with_launch(false)).autostart);
    }
}

#[test]
fn default_document_turns_autostart_off() {
    assert!(!startup_plan(Platform::Linux, &AppSettings::default()).autostart);
}
