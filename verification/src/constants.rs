//! Fixed pieces of the application shell: the tab registry and the text
//! shown on the welcome screen.

use vstd::prelude::*;

verus! {

/// Identity of one tab of the application shell.
#[derive(Debug, Clone, Copy, PartialEq, Eq, Structural)]
pub enum TabId {
    Welcome,
    Info,
    TaskControl,
}

/// How many tabs the shell registers.
pub const TAB_COUNT: usize = 3;

impl TabId {
    /// The title shown in the tab bar.
    pub fn title(&self) -> (r: &'static str)
        ensures
            *self == TabId::Welcome ==> r@ == "  Welcome "@,
            *self == TabId::Info ==> r@ == "  System Info "@,
            *self == TabId::TaskControl ==> r@ == " Task Control "@,
    {
        match self {
            TabId::Welcome => "  Welcome ",
            TabId::Info => "  System Info ",
            TabId::TaskControl => " Task Control ",
        }
    }

    /// The tab at a position of the tab bar; out-of-range positions fall
    /// back to the welcome tab.
    pub fn from_index(index: usize) -> (r: TabId)
        ensures
            index == 0 ==> r == TabId::Welcome,
            index == 1 ==> r == TabId::TaskControl,
            index == 2 ==> r == TabId::Info,
            index >= TAB_COUNT ==> r == TabId::Welcome,
    {
        match index {
            0 => TabId::Welcome,
            1 => TabId::TaskControl,
            2 => TabId::Info,
            _ => TabId::Welcome,
        }
    }
}

pub const APP_TITLE: &'static str = " ATLAS PRIME ";

pub const WELCOME_MSG: &'static str = "Next-generation Compute Platform";

pub const HELP_PROMPT: &'static str = "Press 'h' to toggle help & controls";

/// Height reserved for the logo block on the welcome screen.
pub const ART_LOGO_HEIGHT: u16 = 6;

/// Percentage of the welcome screen above the fold.
pub const GOLDEN_RATIO_PC: u16 = 62;

pub const INFO_UPDATE_INTERVAL_BASE: u64 = 3;

pub const INFO_UPDATE_INTERVAL_SLOW_TIMES: u64 = 5;

pub const INFO_UPDATE_INTERVAL_SLOWEST: u64 = 100;

/// Samples kept per telemetry series.
pub const HISTORY_CAP: usize = 1024;

} // verus!
