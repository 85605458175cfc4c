//! Decision logic of a tray companion: the settings document and what
//! becomes of it when it is loaded and saved, the tray's presentation, and
//! the single window that the tray icon shows and hides.
//!
//! Nothing here touches the file system or the desktop. Each function takes
//! what the host observed and returns what the host should do next.

pub mod platform;
pub mod save;
pub mod settings;
pub mod text;
pub mod tray;
pub mod window;

pub use settings::{default_true, AppSettings, JiraUserSettings};
