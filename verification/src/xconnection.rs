//! The X connection as the window manager sees it: the events it reports and the
//! operations it offers.
//!
//! The X protocol events that matter here, with the fields that are read:
//!
//! * *MapNotify*: a window was mapped. `window` is the window, and `override_redirect`
//!   says that the window manager should leave it alone.
//! * *UnmapNotify*: a window was unmapped.
//! * *EnterNotify* / *LeaveNotify*: the pointer entered / left a window; `event` is
//!   the window on which the event was generated.
//! * *DestroyNotify*: a window was destroyed; `window` is the window.
//! * *KeyPress*: a key was pressed; `detail` is the key code and `state` the modifier
//!   mask that was held.
//! * *ButtonPress* / *ButtonRelease*: a mouse button was pressed / released.
use crate::data_types::{KeyBindings, KeyCode, Region, Screen, WinId};
use vstd::prelude::*;
use vstd::string::StringExecFns;

verus! {

/// Response type of a KeyPress event.
pub const KEY_PRESS: u8 = 2;

/// Response type of a ButtonPress event.
pub const BUTTON_PRESS: u8 = 4;

/// Response type of a ButtonRelease event.
pub const BUTTON_RELEASE: u8 = 5;

/// Response type of an EnterNotify event.
pub const ENTER_NOTIFY: u8 = 7;

/// Response type of a LeaveNotify event.
pub const LEAVE_NOTIFY: u8 = 8;

/// Response type of a DestroyNotify event.
pub const DESTROY_NOTIFY: u8 = 17;

/// Response type of an UnmapNotify event.
pub const UNMAP_NOTIFY: u8 = 18;

/// Response type of a MapNotify event.
pub const MAP_NOTIFY: u8 = 19;

/// The events that are passed on to the window manager's event loop.
#[derive(Debug, Copy, Clone, PartialEq, Eq, Structural)]
pub enum XEvent {
    /// A mouse button was pressed.
    ButtonPress,
    /// A mouse button was released.
    ButtonRelease,
    /// A bound key was pressed.
    KeyPress { code: KeyCode },
    /// A window was mapped; `ignore` is set for override-redirect windows.
    MapNotify { window: WinId, ignore: bool },
    /// The pointer entered a window.
    Enter { window: WinId },
    /// The pointer left a window.
    Leave { window: WinId },
    /// A window was destroyed.
    Destroy { window: WinId },
    /// A window was unmapped.
    Unmap { window: WinId },
}

/// An event as the X server delivered it, reduced to the fields that are read from it.
///
/// Every X event is a 32-byte record whose layout depends on its response type; the
/// fields here are read at the positions that the named layouts give them, whatever the
/// response type is.
#[derive(Debug, Copy, Clone, PartialEq, Eq, Structural)]
pub struct RawEvent {
    /// The response type (the first byte of the event).
    pub response_type: u8,
    /// `detail` as a KeyPress event holds it: the key code.
    pub detail: u8,
    /// `state` as a KeyPress event holds it: the modifier mask.
    pub state: u16,
    /// `window` as a MapNotify event holds it (DestroyNotify keeps it at the same place).
    pub window: WinId,
    /// `override_redirect` as a MapNotify event holds it.
    pub override_redirect: bool,
    /// `event` as an EnterNotify event holds it (LeaveNotify keeps it at the same place).
    pub event: WinId,
}

/// The event that a raw X event stands for, if it is one that the window manager handles.
/// Button presses and releases are dropped, and so is every other type of event,
/// including an event whose response type has the "sent by a client" bit set.
pub open spec fn event_from_raw(raw: RawEvent) -> Option<XEvent> {
    if raw.response_type == KEY_PRESS {
        Some(XEvent::KeyPress { code: KeyCode { mask: raw.state, code: raw.detail } })
    } else if raw.response_type == MAP_NOTIFY {
        Some(XEvent::MapNotify { window: raw.window, ignore: raw.override_redirect })
    } else if raw.response_type == ENTER_NOTIFY {
        Some(XEvent::Enter { window: raw.event })
    } else if raw.response_type == LEAVE_NOTIFY {
        Some(XEvent::Leave { window: raw.event })
    } else if raw.response_type == DESTROY_NOTIFY {
        Some(XEvent::Destroy { window: raw.window })
    } else {
        None
    }
}

/// The response types are those of the X protocol's core events.
pub proof fn lemma_event_codes()
    ensures
        KEY_PRESS == 2,
        BUTTON_PRESS == 4,
        BUTTON_RELEASE == 5,
        ENTER_NOTIFY == 7,
        LEAVE_NOTIFY == 8,
        DESTROY_NOTIFY == 17,
        UNMAP_NOTIFY == 18,
        MAP_NOTIFY == 19,
{
}

/// What an event becomes: a key press keeps the whole modifier mask that was held and
/// the key code; a map carries the mapped window and its override-redirect flag; enter
/// and leave carry the window the event was generated on; a destroy carries the
/// destroyed window; every other event (button presses and releases included) is dropped.
pub proof fn lemma_event_translation(raw: RawEvent)
    ensures
        raw.response_type == KEY_PRESS ==> event_from_raw(raw) == Some(
            XEvent::KeyPress { code: KeyCode { mask: raw.state, code: raw.detail } },
        ),
        raw.response_type == MAP_NOTIFY ==> event_from_raw(raw) == Some(
            XEvent::MapNotify { window: raw.window, ignore: raw.override_redirect },
        ),
        raw.response_type == ENTER_NOTIFY ==> event_from_raw(raw) == Some(
            XEvent::Enter { window: raw.event },
        ),
        raw.response_type == LEAVE_NOTIFY ==> event_from_raw(raw) == Some(
            XEvent::Leave { window: raw.event },
        ),
        raw.response_type == DESTROY_NOTIFY ==> event_from_raw(raw) == Some(
            XEvent::Destroy { window: raw.window },
        ),
        raw.response_type != KEY_PRESS && raw.response_type != MAP_NOTIFY
            && raw.response_type != ENTER_NOTIFY && raw.response_type != LEAVE_NOTIFY
            && raw.response_type != DESTROY_NOTIFY ==> event_from_raw(raw) is None,
{
}

impl XEvent {
    /// Translate an event delivered by the X server.
    pub fn from_raw(raw: &RawEvent) -> (r: Option<XEvent>)
        ensures
            r == event_from_raw(*raw),
            raw.response_type == KEY_PRESS ==> r == Some(
                XEvent::KeyPress { code: KeyCode { mask: raw.state, code: raw.detail } },
            ),
            raw.response_type == MAP_NOTIFY ==> r == Some(
                XEvent::MapNotify { window: raw.window, ignore: raw.override_redirect },
            ),
            raw.response_type == ENTER_NOTIFY ==> r == Some(XEvent::Enter { window: raw.event }),
            raw.response_type == LEAVE_NOTIFY ==> r == Some(XEvent::Leave { window: raw.event }),
            raw.response_type == DESTROY_NOTIFY ==> r == Some(
                XEvent::Destroy { window: raw.window },
            ),
            raw.response_type != KEY_PRESS && raw.response_type != MAP_NOTIFY
                && raw.response_type != ENTER_NOTIFY && raw.response_type != LEAVE_NOTIFY
                && raw.response_type != DESTROY_NOTIFY ==> r is None,
    {
        let etype = raw.response_type;
        if etype == BUTTON_PRESS {
            None
        } else if etype == BUTTON_RELEASE {
            None
        } else if etype == KEY_PRESS {
            Some(XEvent::KeyPress { code: KeyCode { mask: raw.state, code: raw.detail } })
        } else if etype == MAP_NOTIFY {
            Some(XEvent::MapNotify { window: raw.window, ignore: raw.override_redirect })
        } else if etype == ENTER_NOTIFY {
            Some(XEvent::Enter { window: raw.event })
        } else if etype == LEAVE_NOTIFY {
            Some(XEvent::Leave { window: raw.event })
        } else if etype == DESTROY_NOTIFY {
            Some(XEvent::Destroy { window: raw.window })
        } else {
            None
        }
    }
}

/// A handle on a running X11 connection that we can use for issuing X requests.
pub trait XConn {
    /// Flush pending actions to the X event loop.
    fn flush(&self) -> bool;

    /// Wait for the next event from the X server and return it as an XEvent.
    fn wait_for_event(&self) -> Option<XEvent>;

    /// Determine the currently connected CRTCs and return their details.
    fn current_outputs(&self) -> Vec<Screen>;

    /// Reposition the window identified by `id` to the specified region.
    fn position_window(&self, id: WinId, r: Region, border: u32);

    /// Mark the given window as newly created.
    fn mark_new_window(&self, id: WinId);

    /// Map a window to the display. Called each time a map_notify event is received.
    fn map_window(&self, id: WinId);

    /// Unmap a window from the display. Called each time an unmap_notify event is received.
    fn unmap_window(&self, id: WinId);

    /// Send an X event to the target window.
    fn send_client_event(&self, id: WinId, atom_name: &str);

    /// Mark the given client as having focus.
    fn focus_client(&self, id: WinId);

    /// Change the border color for the given client.
    fn set_client_border_color(&self, id: WinId, color: u32);

    /// Notify the X server that we are intercepting the user specified key bindings
    /// and prevent them being passed through to the underlying applications. This
    /// is what determines which key press events end up being sent through in the
    /// main event loop for the window manager.
    fn grab_keys(&self, key_bindings: &KeyBindings);

    /// Set the required Net* X properties to ensure compatibility.
    fn set_wm_properties(&self);

    /// Query a string property of a window by window ID and property name.
    /// Can fail if the property name is invalid or the reply from the server is malformed.
    fn str_prop(&self, id: u32, name: &str) -> Result<String, String>;

    /// Fetch an atom property by name for a particular window ID.
    fn atom_prop(&self, id: u32, name: &str) -> Result<u32, String>;
}

/// An X connection that talks to no server: it reports the screens it was made with,
/// never has an event, echoes property queries and ignores every request.
pub struct MockXConn {
    screens: Vec<Screen>,
}

impl View for MockXConn {
    type V = Seq<Screen>;

    closed spec fn view(&self) -> Seq<Screen> {
        self.screens@
    }
}

impl MockXConn {
    /// A mock connection whose outputs are `screens`.
    pub fn new(screens: Vec<Screen>) -> (r: Self)
        ensures
            r@ == screens@,
    {
        MockXConn { screens }
    }
}

impl XConn for MockXConn {
    fn flush(&self) -> (r: bool)
        ensures
            r,
    {
        true
    }

    fn wait_for_event(&self) -> (r: Option<XEvent>)
        ensures
            r is None,
    {
        None
    }

    fn current_outputs(&self) -> (r: Vec<Screen>)
        ensures
            r@ == self@,
    {
        let mut out: Vec<Screen> = Vec::new();
        let n = self.screens.len();
        for i in 0..n
            invariant
                n == self.screens@.len(),
                out@ == self.screens@.subrange(0, i as int),
        {
            out.push(self.screens[i]);
            assert(self.screens@.subrange(0, i + 1) == self.screens@.subrange(0, i as int).push(
                self.screens@[i as int],
            ));
        }
        assert(self.screens@.subrange(0, n as int) == self.screens@);
        out
    }

    fn position_window(&self, _id: WinId, _r: Region, _border: u32) {
    }

    fn mark_new_window(&self, _id: WinId) {
    }

    fn map_window(&self, _id: WinId) {
    }

    fn unmap_window(&self, _id: WinId) {
    }

    fn send_client_event(&self, _id: WinId, _atom_name: &str) {
    }

    fn focus_client(&self, _id: WinId) {
    }

    fn set_client_border_color(&self, _id: WinId, _color: u32) {
    }

    fn grab_keys(&self, _key_bindings: &KeyBindings) {
    }

    fn set_wm_properties(&self) {
    }

    fn str_prop(&self, _id: u32, name: &str) -> (r: Result<String, String>)
        ensures
            r matches Ok(s) && s@ == name@,
    {
        Ok(<String as StringExecFns>::from_str(name))
    }

    fn atom_prop(&self, id: u32, _name: &str) -> (r: Result<u32, String>)
        ensures
            r == Ok::<u32, String>(id),
    {
        Ok(id)
    }
}

} // verus!
