use vstd::prelude::*;

use crate::text::same_text;

verus! {

/// A print event of the host: one of its named message formats, such as `Channel Message`.
#[derive(Copy, Clone, Debug, PartialEq, Eq)]
pub struct PrintEvent(pub &'static str);

impl PrintEvent {
    /// The host's name of the event.
    pub fn name(&self) -> (r: &'static str)
        ensures
            r == self.0,
    {
        self.0
    }
}

/// An event of the host's window.
#[derive(Copy, Clone, Debug, PartialEq, Eq)]
pub struct WindowEvent(pub &'static str);

impl WindowEvent {
    /// Fired when a channel context is opened.
    pub fn open_channel() -> (r: WindowEvent)
        ensures
            r.0@ == "Open Context"@,
    {
        WindowEvent("Open Context")
    }

    /// Fired when a channel context is closed.
    pub fn close_channel() -> (r: WindowEvent)
        ensures
            r.0@ == "Close Context"@,
    {
        WindowEvent("Close Context")
    }

    /// Fired when a channel tab is focused.
    pub fn focus_tab() -> (r: WindowEvent)
        ensures
            r.0@ == "Focus Tab"@,
    {
        WindowEvent("Focus Tab")
    }

    /// Fired when the window is focused after being unfocused.
    pub fn focus_window() -> (r: WindowEvent)
        ensures
            r.0@ == "Focus Window"@,
    {
        WindowEvent("Focus Window")
    }

    /// The host's name of the event.
    pub fn name(&self) -> (r: &'static str)
        ensures
            r == self.0,
    {
        self.0
    }
}

/// The states of the host's window.
#[derive(Copy, Clone, Debug, PartialEq, Eq, Structural)]
pub enum WindowStatus {
    /// The window is active.
    Active,
    /// The window is minimized.
    Hidden,
    /// The window is in the background.
    Normal,
}

impl WindowStatus {
    /// The status that the host's status text names: `active`, `hidden` or `normal`.
    pub fn from_status_text(s: &str) -> (r: Option<WindowStatus>)
        ensures
            s@ == "active"@ ==> r == Some(WindowStatus::Active),
            s@ == "hidden"@ ==> r == Some(WindowStatus::Hidden),
            s@ == "normal"@ ==> r == Some(WindowStatus::Normal),
            s@ != "active"@ && s@ != "hidden"@ && s@ != "normal"@ ==> r is None,
    {
        proof {
            reveal_strlit("active");
            reveal_strlit("hidden");
            reveal_strlit("normal");
            assert("active"@[0] != "hidden"@[0] && "active"@[0] != "normal"@[0] && "hidden"@[0]
                != "normal"@[0]);
        }
        if same_text(s, "active") {
            Some(WindowStatus::Active)
        } else if same_text(s, "hidden") {
            Some(WindowStatus::Hidden)
        } else if same_text(s, "normal") {
            Some(WindowStatus::Normal)
        } else {
            None
        }
    }
}

} // verus!
