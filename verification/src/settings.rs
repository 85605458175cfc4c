//! The settings document and what a load attempt makes of it.

use vstd::prelude::*;

verus! {

/// Name of the settings file inside the application's data directory.
pub const SETTINGS_FILE_NAME: &'static str = "settings.json";

/// The value of `launch_at_startup` in a stored document that does not
/// mention it.
pub fn default_true() -> (flag: bool)
    ensures
        flag,
{
    true
}

/// The profile of the signed-in user.
#[derive(Debug)]
pub struct JiraUserSettings {
    pub account_id: String,
    pub email_address: String,
    pub display_name: String,
    pub avatar_url: String,
}

/// Mathematical content of a [`JiraUserSettings`].
pub struct JiraUserView {
    pub account_id: Seq<char>,
    pub email_address: Seq<char>,
    pub display_name: Seq<char>,
    pub avatar_url: Seq<char>,
}

impl View for JiraUserSettings {
    type V = JiraUserView;

    open spec fn view(&self) -> JiraUserView {
        JiraUserView {
            account_id: self.account_id@,
            email_address: self.email_address@,
            display_name: self.display_name@,
            avatar_url: self.avatar_url@,
        }
    }
}

/// The profile in which every field is empty.
pub open spec fn empty_user() -> JiraUserView {
    JiraUserView {
        account_id: Seq::empty(),
        email_address: Seq::empty(),
        display_name: Seq::empty(),
        avatar_url: Seq::empty(),
    }
}

impl Default for JiraUserSettings {
    fn default() -> (user: JiraUserSettings)
        ensures
            user@ == empty_user(),
    {
        JiraUserSettings {
            account_id: String::new(),
            email_address: String::new(),
            display_name: String::new(),
            avatar_url: String::new(),
        }
    }
}

impl Clone for JiraUserSettings {
    fn clone(&self) -> (copy: JiraUserSettings)
        ensures
            copy@ == self@,
    {
        JiraUserSettings {
            account_id: self.account_id.clone(),
            email_address: self.email_address.clone(),
            display_name: self.display_name.clone(),
            avatar_url: self.avatar_url.clone(),
        }
    }
}

/// The whole settings document. It is stored and replaced as one value.
#[derive(Debug)]
pub struct AppSettings {
    pub jira_token: String,
    pub clockwork_api_token: String,
    pub jira_user: Option<JiraUserSettings>,
    pub pin_icon_dismissed: bool,
    pub launch_at_startup: bool,
}

/// Mathematical content of an [`AppSettings`].
pub struct AppSettingsView {
    pub jira_token: Seq<char>,
    pub clockwork_api_token: Seq<char>,
    pub jira_user: Option<JiraUserView>,
    pub pin_icon_dismissed: bool,
    pub launch_at_startup: bool,
}

impl View for AppSettings {
    type V = AppSettingsView;

    open spec fn view(&self) -> AppSettingsView {
        AppSettingsView {
            jira_token: self.jira_token@,
            clockwork_api_token: self.clockwork_api_token@,
            jira_user: match self.jira_user {
                Some(user) => Some(user@),
                None => None,
            },
            pin_icon_dismissed: self.pin_icon_dismissed,
            launch_at_startup: self.launch_at_startup,
        }
    }
}

/// The document that stands in when none can be loaded: no tokens, no
/// user, both flags off.
pub open spec fn default_document() -> AppSettingsView {
    AppSettingsView {
        jira_token: Seq::empty(),
        clockwork_api_token: Seq::empty(),
        jira_user: None,
        pin_icon_dismissed: false,
        launch_at_startup: false,
    }
}

impl Default for AppSettings {
    fn default() -> (settings: AppSettings)
        ensures
            settings@ == default_document(),
    {
        AppSettings {
            jira_token: String::new(),
            clockwork_api_token: String::new(),
            jira_user: None,
            pin_icon_dismissed: false,
            launch_at_startup: false,
        }
    }
}

impl Clone for AppSettings {
    fn clone(&self) -> (copy: AppSettings)
        ensures
            copy@ == self@,
    {
        AppSettings {
            jira_token: self.jira_token.clone(),
            clockwork_api_token: self.clockwork_api_token.clone(),
            jira_user: match &self.jira_user {
                Some(user) => Some(user.clone()),
                None => None,
            },
            pin_icon_dismissed: self.pin_icon_dismissed,
            launch_at_startup: self.launch_at_startup,
        }
    }
}

/// How an attempt to load the stored document ended.
#[derive(Debug)]
pub enum LoadOutcome {
    /// The file is missing or could not be read.
    Unreadable,
    /// The file was read, but its content is not a settings document.
    Malformed,
    /// The file held this document.
    Parsed(AppSettings),
}

/// The document that the application works with after a load attempt.
pub open spec fn document_after(outcome: LoadOutcome) -> AppSettingsView {
    match outcome {
        LoadOutcome::Parsed(stored) => stored@,
        _ => default_document(),
    }
}

/// Settles a load attempt: the stored document where there is one, the
/// default document otherwise. A failed load is never reported.
pub fn settings_after_load(outcome: LoadOutcome) -> (settings: AppSettings)
    ensures
        settings@ == document_after(outcome),
        outcome matches LoadOutcome::Parsed(stored) ==> settings == stored,
{
    match outcome {
        LoadOutcome::Parsed(stored) => stored,
        _ => AppSettings::default(),
    }
}

} // verus!
