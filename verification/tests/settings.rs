use tray_companion::settings::{settings_after_load, LoadOutcome, SETTINGS_FILE_NAME};
use tray_companion::{default_true, AppSettings, JiraUserSettings};

fn sample_user() -> JiraUserSettings {
    JiraUserSettings {
        account_id: String::from("5b10ac8d82e05b22cc7d4ef5"),
        email_address: String::from("mia@example.com"),
        display_name: String::from("Mia Krüger"),
        avatar_url: String::from("https://avatars.example.com/mia.png"),
    }
}

fn sample_settings() -> AppSettings {
    AppSettings {
        jira_token: String::from("jira-token-123"),
        clockwork_api_token: String::from("clockwork-456"),
        jira_user: Some(sample_user()),
        pin_icon_dismissed: true,
        launch_at_startup: true,
    }
}

#[test]
fn default_true_is_true() {
    assert!(default_true());
}

#[test]
fn settings_file_is_named_settings_json() {
    assert_eq!(SETTINGS_FILE_NAME, "settings.json");
}

#[test]
fn default_document_has_empty_fields() {
    let settings = AppSettings::default();
    assert_eq!(settings.jira_token, "");
    assert_eq!(settings.clockwork_api_token, "");
    assert!(settings.jira_user.is_none());
    assert!(!settings.pin_icon_dismissed);
    assert!(!settings.launch_at_startup);
}

#[test]
fn default_user_has_empty_fields() {
    let user = JiraUserSettings::default();
    assert_eq!(user.account_id, "");
    assert_eq!(user.email_address, "");
    assert_eq!(user.display_name, "");
    assert_eq!(user.avatar_url, "");
}

#[test]
fn unreadable_file_gives_the_default_document() {
    let settings = settings_after_load(LoadOutcome::Unreadable);
    assert_eq!(settings.jira_token, "");
    assert_eq!(settings.clockwork_api_token, "");
    assert!(settings.jira_user.is_none());
    assert!(!settings.pin_icon_dismissed);
    assert!(!settings.launch_at_startup);
}

#[test]
fn malformed_file_gives_the_default_document() {
    let settings = settings_after_load(LoadOutcome::Malformed);
    assert_eq!(settings.jira_token, "");
    assert_eq!(settings.clockwork_api_token, "");
    assert!(settings.jira_user.is_none());
    assert!(!settings.pin_icon_dismissed);
    assert!(!settings.launch_at_startup);
}

#[test]
fn parsed_document_is_kept_field_by_field() {
    let settings = settings_after_load(LoadOutcome::Parsed(sample_settings()));
    assert_eq!(settings.jira_token, "jira-token-123");
    assert_eq!(settings.clockwork_api_token, "clockwork-456");
    assert!(settings.pin_icon_dismissed);
    assert!(settings.launch_at_startup);
    let user = settings.jira_user.expect("the user is kept");
    assert_eq!(user.account_id, "5b10ac8d82e05b22cc7d4ef5");
    assert_eq!(user.email_address, "mia@example.com");
    assert_eq!(user.display_name, "Mia Krüger");
    assert_eq!(user.avatar_url, "https://avatars.example.com/mia.png");
}

#[test]
fn parsed_document_without_user_stays_without_user() {
    let stored = AppSettings {
        jira_token: String::from("t"),
        clockwork_api_token: String::new(),
        jira_user: None,
        pin_icon_dismissed: false,
        launch_at_startup: true,
    };
    let settings = settings_after_load(LoadOutcome::Parsed(stored));
    assert_eq!(settings.jira_token, "t");
    assert_eq!(settings.clockwork_api_token, "");
    assert!(settings.jira_user.is_none());
    assert!(!settings.pin_icon_dismissed);
    assert!(settings.launch_at_startup);
}

#[test]
fn clone_keeps_every_field() {
    let settings = sample_settings();
    let copy = settings.clone();
    assert_eq!(copy.jira_token, settings.jira_token);
    assert_eq!(copy.clockwork_api_token, settings.clockwork_api_token);
    assert_eq!(copy.pin_icon_dismissed, settings.pin_icon_dismissed);
    assert_eq!(copy.launch_at_startup, settings.launch_at_startup);
    let copied_user = copy.jira_user.expect("the user is copied");
    let user = settings.jira_user.expect("the sample has a user");
    assert_eq!(copied_user.account_id, user.account_id);
    assert_eq!(copied_user.email_address, user.email_address);
    assert_eq!(copied_user.display_name, user.display_name);
    assert_eq!(copied_user.avatar_url, user.avatar_url);
}

#[test]
fn clone_of_user_keeps_every_field() {
    let user = sample_user();
    let copy = user.clone();
    assert_eq!(copy.account_id, "5b10ac8d82e05b22cc7d4ef5");
    assert_eq!(copy.email_address, "mia@example.com");
    assert_eq!(copy.display_name, "Mia Krüger");
    assert_eq!(copy.avatar_url, "https://avatars.example.com/mia.png");
}
