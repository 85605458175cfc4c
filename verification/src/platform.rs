//! The desktop systems on which the companion runs, and what starting up
//! on each of them takes.

use vstd::prelude::*;
use crate::settings::AppSettings;

verus! {

/// A desktop system. The host chooses one when it starts.
#[derive(Clone, Copy, Debug, PartialEq, Eq, Structural)]
pub enum Platform {
    MacOs,
    Windows,
    Linux,
}

impl Platform {
    /// Whether the application lives in the menu bar alone: no dock icon,
    /// no shadow round its window, a tray icon that follows the bar's tint.
    pub open spec fn menu_bar_only(self) -> bool {
        self == Platform::MacOs
    }

    /// Whether the tray icon gets a menu. Where it does, the menu opens on
    /// a left click too.
    pub open spec fn has_tray_menu(self) -> bool {
        self == Platform::Linux
    }
}

/// What the host arranges once, when the application starts.
#[derive(Clone, Copy, Debug, PartialEq, Eq, Structural)]
pub struct StartupPlan {
    /// Register the application to launch at login (`true`) or remove
    /// that registration (`false`).
    pub autostart: bool,
    /// Keep the application out of the dock.
    pub hide_dock_icon: bool,
    /// Draw the window without a shadow.
    pub drop_window_shadow: bool,
    /// Let the system tint the tray icon.
    pub template_icon: bool,
    /// Attach the menu to the tray icon and open it on a left click.
    pub tray_menu: bool,
}

/// The plan for a platform and a launch-at-startup preference.
pub open spec fn plan_for(platform: Platform, launch_at_startup: bool) -> StartupPlan {
    StartupPlan {
        autostart: launch_at_startup,
        hide_dock_icon: platform.menu_bar_only(),
        drop_window_shadow: platform.menu_bar_only(),
        template_icon: platform.menu_bar_only(),
        tray_menu: platform.has_tray_menu(),
    }
}

/// Plans the start of the application from the settings in force.
pub fn startup_plan(platform: Platform, settings: &AppSettings) -> (plan: StartupPlan)
    ensures
        plan == plan_for(platform, settings.launch_at_startup),
{
    let menu_bar_only = match platform {
        Platform::MacOs => true,
        _ => false,
    };
    let tray_menu = match platform {
        Platform::Linux => true,
        _ => false,
    };
    StartupPlan {
        autostart: settings.launch_at_startup,
        hide_dock_icon: menu_bar_only,
        drop_window_shadow: menu_bar_only,
        template_icon: menu_bar_only,
        tray_menu,
    }
}

} // verus!
