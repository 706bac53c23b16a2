//! Pieces of the interactive front end that hold no terminal state: the components,
//! its error, and how it writes times.

use vstd::prelude::*;
use vstd::string::*;
use std::time::SystemTime;
use crate::clock::{as_secs, duration_since, system_now, time_after, whole_seconds};
use crate::storage::DbError;
use crate::text::{decimal, decimal_text};

verus! {

/// Routes keyboard events.
pub struct EventHandler;

impl EventHandler {
    /// A handler.
    pub fn new() -> (r: EventHandler) {
        EventHandler
    }
}

impl Default for EventHandler {
    fn default() -> (r: EventHandler) {
        EventHandler::new()
    }
}

/// The floating help panel.
pub struct HelpPanel;

impl HelpPanel {
    /// A panel.
    pub fn new() -> (r: HelpPanel) {
        HelpPanel
    }
}

impl Default for HelpPanel {
    fn default() -> (r: HelpPanel) {
        HelpPanel::new()
    }
}

/// The input line at the bottom.
pub struct InputBar;

impl InputBar {
    /// An input bar.
    pub fn new() -> (r: InputBar) {
        InputBar
    }
}

impl Default for InputBar {
    fn default() -> (r: InputBar) {
        InputBar::new()
    }
}

/// Splits the screen into areas.
pub struct LayoutManager;

impl LayoutManager {
    /// A layout manager.
    pub fn new() -> (r: LayoutManager) {
        LayoutManager
    }
}

impl Default for LayoutManager {
    fn default() -> (r: LayoutManager) {
        LayoutManager::new()
    }
}

/// What can go wrong in the interface.
#[derive(Debug)]
pub enum UiError {
    /// The terminal failed.
    IoError(std::io::Error),
    /// The storage failed.
    DbError(DbError),
}

/// How far an instant lies from now, `secs` seconds away, in the past or the future:
/// the largest unit that is not zero, or "now" under a minute.
pub open spec fn relative_spec(secs: u64, past: bool) -> Seq<char> {
    let days = secs / 86400;
    let hours = (secs % 86400) / 3600;
    let minutes = (secs % 3600) / 60;
    if days > 0 {
        if past {
            decimal(days as nat) + "d ago"@
        } else {
            "in "@ + decimal(days as nat) + "d"@
        }
    } else if hours > 0 {
        if past {
            decimal(hours as nat) + "h ago"@
        } else {
            "in "@ + decimal(hours as nat) + "h"@
        }
    } else if minutes > 0 {
        if past {
            decimal(minutes as nat) + "m ago"@
        } else {
            "in "@ + decimal(minutes as nat) + "m"@
        }
    } else {
        "now"@
    }
}

/// How `time` reads relative to the clock reading `now`.
pub open spec fn relative_of(now: SystemTime, time: SystemTime) -> Seq<char> {
    match time_after(now, time) {
        Some(d) => relative_spec(whole_seconds(d), true),
        None => match time_after(time, now) {
            Some(d) => relative_spec(whole_seconds(d), false),
            None => "Invalid"@,
        },
    }
}

fn amount(n: u64, past: bool, unit: &str) -> (r: String)
    ensures
        r@ == if past {
            decimal(n as nat) + unit@ + " ago"@
        } else {
            "in "@ + decimal(n as nat) + unit@
        },
{
    let digits = decimal_text(n);
    if past {
        let mut s = digits;
        s.append(unit);
        s.append(" ago");
        s
    } else {
        let mut s = String::from_str("in ");
        s.append(digits.as_str());
        s.append(unit);
        s
    }
}

/// Writes a distance of `secs` seconds into the past or the future.
pub fn relative_text(secs: u64, past: bool) -> (r: String)
    ensures
        r@ == relative_spec(secs, past),
{
    let days = secs / 86400;
    let hours = (secs % 86400) / 3600;
    let minutes = (secs % 3600) / 60;
    proof {
        reveal_strlit("d");
        reveal_strlit("h");
        reveal_strlit("m");
        reveal_strlit("d ago");
        reveal_strlit("h ago");
        reveal_strlit("m ago");
        reveal_strlit(" ago");
    }
    if days > 0 {
        let r = amount(days, past, "d");
        assert(r@ =~= relative_spec(secs, past));
        r
    } else if hours > 0 {
        let r = amount(hours, past, "h");
        assert(r@ =~= relative_spec(secs, past));
        r
    } else if minutes > 0 {
        let r = amount(minutes, past, "m");
        assert(r@ =~= relative_spec(secs, past));
        r
    } else {
        String::from_str("now")
    }
}

/// Writes how `time` reads relative to now ("2h ago", "in 3d", "now").
pub fn format_time_relative(time: SystemTime) -> (r: String)
    ensures
        exists|now: SystemTime| r@ == relative_of(now, time),
{
    let now = system_now();
    let r = match duration_since(now, time) {
        Some(d) => relative_text(as_secs(&d), true),
        None => match duration_since(time, now) {
            Some(d) => relative_text(as_secs(&d), false),
            None => String::from_str("Invalid"),
        },
    };
    assert(r@ == relative_of(now, time));
    r
}

/// Writes an optional instant relative to now, or "-" for none.
pub fn format_date(time: Option<SystemTime>) -> (r: String)
    ensures
        time matches Some(t) ==> exists|now: SystemTime| r@ == relative_of(now, t),
        time is None ==> r@ == "-"@,
{
    match time {
        Some(t) => format_time_relative(t),
        None => String::from_str("-"),
    }
}

} // verus!
