use vstd::prelude::*;
use crate::text::str_equal;

verus! {

/// What to do with launch-at-login after settings were saved.
#[derive(PartialEq, Eq, Structural)]
pub enum AutostartChange {
    Enable,
    Disable,
    Keep,
}

/// The launch-at-login change after saving: enable it when asked for;
/// otherwise disable it if it is currently enabled.
pub fn autostart_change(launch_at_login: bool, currently_enabled: bool) -> (res: AutostartChange)
    ensures
        res == (if launch_at_login {
            AutostartChange::Enable
        } else if currently_enabled {
            AutostartChange::Disable
        } else {
            AutostartChange::Keep
        }),
{
    if launch_at_login {
        AutostartChange::Enable
    } else if currently_enabled {
        AutostartChange::Disable
    } else {
        AutostartChange::Keep
    }
}

/// A command of the tray menu.
#[derive(PartialEq, Eq, Structural)]
pub enum TrayCommand {
    /// Open the manual translation window.
    ShowManual,
    /// Open the settings window.
    ShowSettings,
    /// Quit the application.
    Quit,
}

/// The tray command of a menu item id: `manual`, `settings` or `quit`;
/// other ids do nothing.
pub fn tray_command(id: &str) -> (res: Option<TrayCommand>)
    ensures
        res == (if id@ == "manual"@ {
            Some(TrayCommand::ShowManual)
        } else if id@ == "settings"@ {
            Some(TrayCommand::ShowSettings)
        } else if id@ == "quit"@ {
            Some(TrayCommand::Quit)
        } else {
            None
        }),
{
    if str_equal(id, "manual") {
        Some(TrayCommand::ShowManual)
    } else if str_equal(id, "settings") {
        Some(TrayCommand::ShowSettings)
    } else if str_equal(id, "quit") {
        Some(TrayCommand::Quit)
    } else {
        None
    }
}

/// Whether closing the window with this label only hides it: the settings
/// and manual translation windows live as long as the application.
pub fn hides_on_close(label: &str) -> (res: bool)
    ensures
        res == (label@ == "settings"@ || label@ == "manual"@),
{
    str_equal(label, "settings") || str_equal(label, "manual")
}

/// The size above which the diagnostics log is started afresh: 256 KiB
/// (262144 bytes).
pub open spec fn max_log_bytes() -> int {
    262144
}

/// Whether the diagnostics log of `len` bytes is truncated before the next
/// line instead of appended to.
pub fn rotates_log(len: u64) -> (res: bool)
    ensures
        res == (len > max_log_bytes()),
{
    len > 256 * 1024
}

} // verus!
