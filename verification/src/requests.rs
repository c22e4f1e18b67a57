//! The X requests that an XCB connection sends for each of its operations.
//!
//! Each function here decides, from plain values, the exact requests (and their order)
//! that the corresponding operation of the connection issues; the connection then sends
//! them as they are. The numeric constants are those of the X protocol and of its randr
//! extension.
use crate::atoms::{is_known_atom, is_known_atom_name, AtomTable};
use crate::data_types::{KeyBindings, KeyCode, Region, WinId};
use vstd::prelude::*;
use vstd::string::StringExecFns;

verus! {

/// Value-mask bit of ConfigureWindow for the x coordinate.
pub const CONFIG_WINDOW_X: u16 = 1;

/// Value-mask bit of ConfigureWindow for the y coordinate.
pub const CONFIG_WINDOW_Y: u16 = 2;

/// Value-mask bit of ConfigureWindow for the width.
pub const CONFIG_WINDOW_WIDTH: u16 = 4;

/// Value-mask bit of ConfigureWindow for the height.
pub const CONFIG_WINDOW_HEIGHT: u16 = 8;

/// Value-mask bit of ConfigureWindow for the border width.
pub const CONFIG_WINDOW_BORDER_WIDTH: u16 = 16;

/// Value-mask bit of ChangeWindowAttributes for the border pixel.
pub const CW_BORDER_PIXEL: u32 = 8;

/// Value-mask bit of ChangeWindowAttributes for the event mask.
pub const CW_EVENT_MASK: u32 = 2048;

/// Event mask that selects no event.
pub const EVENT_MASK_NO_EVENT: u32 = 0;

/// Event-mask bit for button presses.
pub const EVENT_MASK_BUTTON_PRESS: u32 = 4;

/// Event-mask bit for button releases.
pub const EVENT_MASK_BUTTON_RELEASE: u32 = 8;

/// Event-mask bit for the pointer entering a window.
pub const EVENT_MASK_ENTER_WINDOW: u32 = 16;

/// Event-mask bit for the pointer leaving a window.
pub const EVENT_MASK_LEAVE_WINDOW: u32 = 32;

/// Event-mask bit for pointer motion.
pub const EVENT_MASK_POINTER_MOTION: u32 = 64;

/// Event-mask bit for changes to the children of a window.
pub const EVENT_MASK_SUBSTRUCTURE_NOTIFY: u32 = 524288;

/// ChangeProperty mode that replaces the old value.
pub const PROP_MODE_REPLACE: u8 = 0;

/// The predefined atom `ATOM`, the type of atom-valued properties.
pub const ATOM_ATOM: u32 = 4;

/// The predefined atom `STRING`, the type of string-valued properties.
pub const ATOM_STRING: u32 = 31;

/// The predefined atom `WINDOW`, the type of window-valued properties.
pub const ATOM_WINDOW: u32 = 33;

/// The property type that matches any type.
pub const ATOM_ANY: u32 = 0;

/// SetInputFocus: when the focused window goes, focus its parent.
pub const INPUT_FOCUS_PARENT: u8 = 2;

/// Grab mode in which events keep being processed.
pub const GRAB_MODE_ASYNC: u8 = 1;

/// The modifier mask of Mod4 (the "super" key on most keyboards).
pub const MOD_MASK_4: u16 = 64;

/// The null resource ID.
pub const NONE: u32 = 0;

/// The time stamp that stands for the server's current time.
pub const CURRENT_TIME: u32 = 0;

/// Randr notify-mask bit for CRTC changes.
pub const NOTIFY_MASK_CRTC_CHANGE: u16 = 2;

/// The events that are selected on every new client window.
pub const NEW_WINDOW_EVENT_MASK: u32 = EVENT_MASK_ENTER_WINDOW | EVENT_MASK_LEAVE_WINDOW;

/// The pointer events that are reported for the grabbed mouse buttons.
pub const MOUSE_MASK: u16 = 76;

/// The events that are selected on the root window.
pub const ROOT_EVENT_MASK: u32 = EVENT_MASK_SUBSTRUCTURE_NOTIFY;

/// How many 32-bit units of a property value are fetched.
pub const PROPERTY_LENGTH: u32 = 1024;

/// The name that the window manager gives itself.
pub open spec fn wm_name() -> Seq<char> {
    "penrose"@
}

/// The value of a property: 32-bit units, or the bytes of a string (8-bit units).
#[derive(Debug, Clone, PartialEq, Eq)]
pub enum PropData {
    Words(Vec<u32>),
    Text(String),
}

/// The abstract value of [`PropData`].
pub enum PropDataView {
    Words(Seq<u32>),
    Text(Seq<char>),
}

impl View for PropData {
    type V = PropDataView;

    open spec fn view(&self) -> PropDataView {
        match self {
            PropData::Words(w) => PropDataView::Words(w@),
            PropData::Text(t) => PropDataView::Text(t@),
        }
    }
}

/// An X request, with the arguments that the XCB call for it takes.
#[derive(Debug, Clone, PartialEq, Eq)]
#[allow(inconsistent_fields)]
pub enum XRequest {
    CreateWindow {
        depth: u8,
        wid: WinId,
        parent: WinId,
        x: i16,
        y: i16,
        width: u16,
        height: u16,
        border_width: u16,
        class: u16,
        visual: u32,
    },
    ConfigureWindow { window: WinId, values: Vec<(u16, u32)> },
    ChangeWindowAttributes { window: WinId, values: Vec<(u32, u32)> },
    MapWindow { window: WinId },
    UnmapWindow { window: WinId },
    /// SendEvent of a ClientMessage event.
    SendClientMessage {
        propagate: bool,
        destination: WinId,
        event_mask: u32,
        format: u8,
        window: WinId,
        message_type: u32,
        data: [u32; 5],
    },
    SetInputFocus { revert_to: u8, focus: WinId, time: u32 },
    ChangeProperty {
        mode: u8,
        window: WinId,
        property: u32,
        property_type: u32,
        format: u8,
        data: PropData,
    },
    DeleteProperty { window: WinId, property: u32 },
    GrabKey {
        owner_events: bool,
        grab_window: WinId,
        modifiers: u16,
        key: u8,
        pointer_mode: u8,
        keyboard_mode: u8,
    },
    GrabButton {
        owner_events: bool,
        grab_window: WinId,
        event_mask: u16,
        pointer_mode: u8,
        keyboard_mode: u8,
        confine_to: WinId,
        cursor: u32,
        button: u8,
        modifiers: u16,
    },
    /// Randr SelectInput; an error reply to it is fatal.
    RandrSelectInput { window: WinId, enable: u16 },
    GetProperty {
        delete: bool,
        window: WinId,
        property: u32,
        property_type: u32,
        long_offset: u32,
        long_length: u32,
    },
}

/// The abstract value of an [`XRequest`]: the same request, with sequences in place of
/// vectors, arrays and strings.
#[allow(inconsistent_fields)]
pub enum XRequestView {
    CreateWindow {
        depth: u8,
        wid: WinId,
        parent: WinId,
        x: i16,
        y: i16,
        width: u16,
        height: u16,
        border_width: u16,
        class: u16,
        visual: u32,
    },
    ConfigureWindow { window: WinId, values: Seq<(u16, u32)> },
    ChangeWindowAttributes { window: WinId, values: Seq<(u32, u32)> },
    MapWindow { window: WinId },
    UnmapWindow { window: WinId },
    SendClientMessage {
        propagate: bool,
        destination: WinId,
        event_mask: u32,
        format: u8,
        window: WinId,
        message_type: u32,
        data: Seq<u32>,
    },
    SetInputFocus { revert_to: u8, focus: WinId, time: u32 },
    ChangeProperty {
        mode: u8,
        window: WinId,
        property: u32,
        property_type: u32,
        format: u8,
        data: PropDataView,
    },
    DeleteProperty { window: WinId, property: u32 },
    GrabKey {
        owner_events: bool,
        grab_window: WinId,
        modifiers: u16,
        key: u8,
        pointer_mode: u8,
        keyboard_mode: u8,
    },
    GrabButton {
        owner_events: bool,
        grab_window: WinId,
        event_mask: u16,
        pointer_mode: u8,
        keyboard_mode: u8,
        confine_to: WinId,
        cursor: u32,
        button: u8,
        modifiers: u16,
    },
    RandrSelectInput { window: WinId, enable: u16 },
    GetProperty {
        delete: bool,
        window: WinId,
        property: u32,
        property_type: u32,
        long_offset: u32,
        long_length: u32,
    },
}

impl View for XRequest {
    type V = XRequestView;

    open spec fn view(&self) -> XRequestView {
        match self {
            XRequest::CreateWindow {
                depth,
                wid,
                parent,
                x,
                y,
                width,
                height,
                border_width,
                class,
                visual,
            } => XRequestView::CreateWindow {
                depth: *depth,
                wid: *wid,
                parent: *parent,
                x: *x,
                y: *y,
                width: *width,
                height: *height,
                border_width: *border_width,
                class: *class,
                visual: *visual,
            },
            XRequest::ConfigureWindow { window, values } => XRequestView::ConfigureWindow {
                window: *window,
                values: values@,
            },
            XRequest::ChangeWindowAttributes { window, values } =>
                XRequestView::ChangeWindowAttributes { window: *window, values: values@ },
            XRequest::MapWindow { window } => XRequestView::MapWindow { window: *window },
            XRequest::UnmapWindow { window } => XRequestView::UnmapWindow { window: *window },
            XRequest::SendClientMessage {
                propagate,
                destination,
                event_mask,
                format,
                window,
                message_type,
                data,
            } => XRequestView::SendClientMessage {
                propagate: *propagate,
                destination: *destination,
                event_mask: *event_mask,
                format: *format,
                window: *window,
                message_type: *message_type,
                data: data@,
            },
            XRequest::SetInputFocus { revert_to, focus, time } => XRequestView::SetInputFocus {
                revert_to: *revert_to,
                focus: *focus,
                time: *time,
            },
            XRequest::ChangeProperty { mode, window, property, property_type, format, data } =>
                XRequestView::ChangeProperty {
                mode: *mode,
                window: *window,
                property: *property,
                property_type: *property_type,
                format: *format,
                data: data@,
            },
            XRequest::DeleteProperty { window, property } => XRequestView::DeleteProperty {
                window: *window,
                property: *property,
            },
            XRequest::GrabKey {
                owner_events,
                grab_window,
                modifiers,
                key,
                pointer_mode,
                keyboard_mode,
            } => XRequestView::GrabKey {
                owner_events: *owner_events,
                grab_window: *grab_window,
                modifiers: *modifiers,
                key: *key,
                pointer_mode: *pointer_mode,
                keyboard_mode: *keyboard_mode,
            },
            XRequest::GrabButton {
                owner_events,
                grab_window,
                event_mask,
                pointer_mode,
                keyboard_mode,
                confine_to,
                cursor,
                button,
                modifiers,
            } => XRequestView::GrabButton {
                owner_events: *owner_events,
                grab_window: *grab_window,
                event_mask: *event_mask,
                pointer_mode: *pointer_mode,
                keyboard_mode: *keyboard_mode,
                confine_to: *confine_to,
                cursor: *cursor,
                button: *button,
                modifiers: *modifiers,
            },
            XRequest::RandrSelectInput { window, enable } => XRequestView::RandrSelectInput {
                window: *window,
                enable: *enable,
            },
            XRequest::GetProperty {
                delete,
                window,
                property,
                property_type,
                long_offset,
                long_length,
            } => XRequestView::GetProperty {
                delete: *delete,
                window: *window,
                property: *property,
                property_type: *property_type,
                long_offset: *long_offset,
                long_length: *long_length,
            },
        }
    }
}

/// The abstract value of a list of requests.
pub open spec fn requests_view(rs: Seq<XRequest>) -> Seq<XRequestView> {
    rs.map_values(|q: XRequest| q@)
}

/// The 1x1 window at the origin, child of `root`, that the window manager creates for
/// its own use (with the parent's depth, class and visual).
pub open spec fn stub_window_view(wid: WinId, root: WinId) -> XRequestView {
    XRequestView::CreateWindow {
        depth: 0,
        wid,
        parent: root,
        x: 0,
        y: 0,
        width: 1,
        height: 1,
        border_width: 0,
        class: 0,
        visual: 0,
    }
}

/// The shapes of the requests that are built from a few values: the stub window is a
/// 1x1 input-output window at the origin of the root window, with no border and the
/// parent's depth, class and visual; a key grab grabs exactly the bound modifier mask and
/// key code; a button grab grabs the button with Mod4 and reports presses, releases and
/// motion; a window property holds the one window ID given; the window manager's name is
/// "penrose".
pub proof fn lemma_request_shapes(
    wid: WinId,
    root: WinId,
    k: KeyCode,
    button: u8,
    window: WinId,
    prop: u32,
    value: WinId,
)
    ensures
        stub_window_view(wid, root) == (XRequestView::CreateWindow {
            depth: 0,
            wid,
            parent: root,
            x: 0,
            y: 0,
            width: 1,
            height: 1,
            border_width: 0,
            class: 0,
            visual: 0,
        }),
        grab_key_view(root, k) == (XRequestView::GrabKey {
            owner_events: false,
            grab_window: root,
            modifiers: k.mask,
            key: k.code,
            pointer_mode: 1,
            keyboard_mode: 1,
        }),
        grab_button_view(root, button) == (XRequestView::GrabButton {
            owner_events: false,
            grab_window: root,
            event_mask: 4u16 | 8u16 | 64u16,
            pointer_mode: 1,
            keyboard_mode: 1,
            confine_to: 0,
            cursor: 0,
            button,
            modifiers: 64,
        }),
        window_prop_view(window, prop, value) == (XRequestView::ChangeProperty {
            mode: 0,
            window,
            property: prop,
            property_type: 33,
            format: 32,
            data: PropDataView::Words(seq![value]),
        }),
        wm_name() == "penrose"@,
{
    assert(4u16 | 8u16 | 64u16 == 76u16) by (bit_vector);
}

/// The masks and values that the requests use are those of the X protocol.
pub proof fn lemma_protocol_values()
    ensures
        CONFIG_WINDOW_X == 1 && CONFIG_WINDOW_Y == 2 && CONFIG_WINDOW_WIDTH == 4,
        CONFIG_WINDOW_HEIGHT == 8 && CONFIG_WINDOW_BORDER_WIDTH == 16,
        CW_BORDER_PIXEL == 8 && CW_EVENT_MASK == 2048,
        NEW_WINDOW_EVENT_MASK == 16 | 32,
        ROOT_EVENT_MASK == 524288,
        PROP_MODE_REPLACE == 0 && ATOM_ATOM == 4 && ATOM_STRING == 31 && ATOM_WINDOW == 33,
        ATOM_ANY == 0 && INPUT_FOCUS_PARENT == 2 && GRAB_MODE_ASYNC == 1,
        MOD_MASK_4 == 64 && NONE == 0 && CURRENT_TIME == 0 && EVENT_MASK_NO_EVENT == 0,
        NOTIFY_MASK_CRTC_CHANGE == 2 && PROPERTY_LENGTH == 1024,
{
}

/// Create the window `wid` as a stub window under `root`.
pub fn stub_window_request(wid: WinId, root: WinId) -> (r: XRequest)
    ensures
        r@ == stub_window_view(wid, root),
{
    XRequest::CreateWindow {
        depth: 0,
        wid,
        parent: root,
        x: 0,
        y: 0,
        width: 1,
        height: 1,
        border_width: 0,
        class: 0,
        visual: 0,
    }
}

/// Move and resize the window `id` to the region `r`, with a border `border` wide.
pub fn position_window_request(id: WinId, r: Region, border: u32) -> (q: XRequest)
    ensures
        q@ == (XRequestView::ConfigureWindow {
            window: id,
            values: seq![
                (CONFIG_WINDOW_X, r.x),
                (CONFIG_WINDOW_Y, r.y),
                (CONFIG_WINDOW_WIDTH, r.w),
                (CONFIG_WINDOW_HEIGHT, r.h),
                (CONFIG_WINDOW_BORDER_WIDTH, border),
            ],
        }),
{
    let (x, y, w, h) = r.values();
    let mut values: Vec<(u16, u32)> = Vec::new();
    values.push((CONFIG_WINDOW_X, x));
    values.push((CONFIG_WINDOW_Y, y));
    values.push((CONFIG_WINDOW_WIDTH, w));
    values.push((CONFIG_WINDOW_HEIGHT, h));
    values.push((CONFIG_WINDOW_BORDER_WIDTH, border));
    assert(values@ =~= seq![
        (CONFIG_WINDOW_X, r.x),
        (CONFIG_WINDOW_Y, r.y),
        (CONFIG_WINDOW_WIDTH, r.w),
        (CONFIG_WINDOW_HEIGHT, r.h),
        (CONFIG_WINDOW_BORDER_WIDTH, border),
    ]);
    XRequest::ConfigureWindow { window: id, values }
}

/// Select enter and leave events on the new client window `id`.
pub fn mark_new_window_request(id: WinId) -> (q: XRequest)
    ensures
        q@ == (XRequestView::ChangeWindowAttributes {
            window: id,
            values: seq![(CW_EVENT_MASK, NEW_WINDOW_EVENT_MASK)],
        }),
{
    let mut values: Vec<(u32, u32)> = Vec::new();
    values.push((CW_EVENT_MASK, NEW_WINDOW_EVENT_MASK));
    XRequest::ChangeWindowAttributes { window: id, values }
}

/// Map the window `id`.
pub fn map_window_request(id: WinId) -> (q: XRequest)
    ensures
        q@ == (XRequestView::MapWindow { window: id }),
{
    XRequest::MapWindow { window: id }
}

/// Unmap the window `id`.
pub fn unmap_window_request(id: WinId) -> (q: XRequest)
    ensures
        q@ == (XRequestView::UnmapWindow { window: id }),
{
    XRequest::UnmapWindow { window: id }
}

/// Set the border color of the window `id`.
pub fn border_color_request(id: WinId, color: u32) -> (q: XRequest)
    ensures
        q@ == (XRequestView::ChangeWindowAttributes {
            window: id,
            values: seq![(CW_BORDER_PIXEL, color)],
        }),
{
    let mut values: Vec<(u32, u32)> = Vec::new();
    values.push((CW_BORDER_PIXEL, color));
    XRequest::ChangeWindowAttributes { window: id, values }
}

/// Send the client `id` a WM_PROTOCOLS message that carries the atom called `atom_name`
/// (for instance WM_DELETE_WINDOW to ask it to close), at the current time.
pub fn client_event_request(atoms: &AtomTable, id: WinId, atom_name: &str) -> (q: XRequest)
    requires
        is_known_atom(atom_name@),
    ensures
        q@ == (XRequestView::SendClientMessage {
            propagate: false,
            destination: id,
            event_mask: EVENT_MASK_NO_EVENT,
            format: 32,
            window: id,
            message_type: atoms.id_of("WM_PROTOCOLS"@),
            data: seq![atoms.id_of(atom_name@), CURRENT_TIME, 0, 0, 0],
        }),
{
    let atom = atoms.atom(atom_name);
    proof {
        assert(crate::atoms::known_atom_names()[4] == "WM_PROTOCOLS"@);
    }
    let wm_protocols = atoms.atom("WM_PROTOCOLS");
    let data: [u32; 5] = [atom, CURRENT_TIME, 0, 0, 0];
    assert(data@ == seq![atom, CURRENT_TIME, 0u32, 0u32, 0u32]);
    XRequest::SendClientMessage {
        propagate: false,
        destination: id,
        event_mask: EVENT_MASK_NO_EVENT,
        format: 32,
        window: id,
        message_type: wm_protocols,
        data,
    }
}

/// Give the input focus to the client `id` and record it as `_NET_ACTIVE_WINDOW` on the
/// root window `root`.
pub fn focus_client_requests(atoms: &AtomTable, root: WinId, id: WinId) -> (r: Vec<XRequest>)
    ensures
        requests_view(r@) == seq![
            XRequestView::SetInputFocus { revert_to: INPUT_FOCUS_PARENT, focus: id, time: 0 },
            XRequestView::ChangeProperty {
                mode: PROP_MODE_REPLACE,
                window: root,
                property: atoms.id_of("_NET_ACTIVE_WINDOW"@),
                property_type: ATOM_WINDOW,
                format: 32,
                data: PropDataView::Words(seq![id]),
            },
        ],
{
    proof {
        assert(crate::atoms::known_atom_names()[7] == "_NET_ACTIVE_WINDOW"@);
    }
    let prop = atoms.atom("_NET_ACTIVE_WINDOW");
    let mut data: Vec<u32> = Vec::new();
    data.push(id);
    let mut r: Vec<XRequest> = Vec::new();
    r.push(XRequest::SetInputFocus { revert_to: INPUT_FOCUS_PARENT, focus: id, time: 0 });
    r.push(
        XRequest::ChangeProperty {
            mode: PROP_MODE_REPLACE,
            window: root,
            property: prop,
            property_type: ATOM_WINDOW,
            format: 32,
            data: PropData::Words(data),
        },
    );
    assert(requests_view(r@) =~= seq![r@[0]@, r@[1]@]);
    r
}

/// Grab the key combination `k` on the root window `root`, both pointer and keyboard in
/// async mode.
pub open spec fn grab_key_view(root: WinId, k: KeyCode) -> XRequestView {
    XRequestView::GrabKey {
        owner_events: false,
        grab_window: root,
        modifiers: k.mask,
        key: k.code,
        pointer_mode: GRAB_MODE_ASYNC,
        keyboard_mode: GRAB_MODE_ASYNC,
    }
}

/// Grab the mouse button `button` together with Mod4 on the root window `root`.
pub open spec fn grab_button_view(root: WinId, button: u8) -> XRequestView {
    XRequestView::GrabButton {
        owner_events: false,
        grab_window: root,
        event_mask: MOUSE_MASK,
        pointer_mode: GRAB_MODE_ASYNC,
        keyboard_mode: GRAB_MODE_ASYNC,
        confine_to: NONE,
        cursor: NONE,
        button,
        modifiers: MOD_MASK_4,
    }
}

fn grab_button_request(root: WinId, button: u8) -> (q: XRequest)
    ensures
        q@ == grab_button_view(root, button),
{
    XRequest::GrabButton {
        owner_events: false,
        grab_window: root,
        event_mask: MOUSE_MASK,
        pointer_mode: GRAB_MODE_ASYNC,
        keyboard_mode: GRAB_MODE_ASYNC,
        confine_to: NONE,
        cursor: NONE,
        button,
        modifiers: MOD_MASK_4,
    }
}

/// The requests that set up the input of the window manager on the root window `root`:
/// subscribe to randr CRTC changes (an error reply to this first request is fatal),
/// grab each bound key in order, grab mouse buttons 1 and 3 with Mod4, and select
/// substructure events on the root window.
pub fn grab_keys_requests(root: WinId, key_bindings: &KeyBindings) -> (r: Vec<XRequest>)
    ensures
        requests_view(r@) == seq![
            XRequestView::RandrSelectInput { window: root, enable: NOTIFY_MASK_CRTC_CHANGE },
        ] + key_bindings@.map_values(|k: KeyCode| grab_key_view(root, k)) + seq![
            grab_button_view(root, 1),
            grab_button_view(root, 3),
            XRequestView::ChangeWindowAttributes {
                window: root,
                values: seq![(CW_EVENT_MASK, ROOT_EVENT_MASK)],
            },
        ],
        r@.len() == key_bindings@.len() + 4,
        r@[0]@ == (XRequestView::RandrSelectInput { window: root, enable: NOTIFY_MASK_CRTC_CHANGE }),
        forall|i: int|
            0 <= i < key_bindings@.len() ==> #[trigger] r@[i + 1]@ == (XRequestView::GrabKey {
                owner_events: false,
                grab_window: root,
                modifiers: key_bindings@[i].mask,
                key: key_bindings@[i].code,
                pointer_mode: GRAB_MODE_ASYNC,
                keyboard_mode: GRAB_MODE_ASYNC,
            }),
        r@[key_bindings@.len() + 1int]@ == (XRequestView::GrabButton {
            owner_events: false,
            grab_window: root,
            event_mask: MOUSE_MASK,
            pointer_mode: GRAB_MODE_ASYNC,
            keyboard_mode: GRAB_MODE_ASYNC,
            confine_to: NONE,
            cursor: NONE,
            button: 1,
            modifiers: MOD_MASK_4,
        }),
        r@[key_bindings@.len() + 2int]@ == (XRequestView::GrabButton {
            owner_events: false,
            grab_window: root,
            event_mask: MOUSE_MASK,
            pointer_mode: GRAB_MODE_ASYNC,
            keyboard_mode: GRAB_MODE_ASYNC,
            confine_to: NONE,
            cursor: NONE,
            button: 3,
            modifiers: MOD_MASK_4,
        }),
        r@[key_bindings@.len() + 3int]@ == (XRequestView::ChangeWindowAttributes {
            window: root,
            values: seq![(CW_EVENT_MASK, ROOT_EVENT_MASK)],
        }),
{
    let mut r: Vec<XRequest> = Vec::new();
    r.push(XRequest::RandrSelectInput { window: root, enable: NOTIFY_MASK_CRTC_CHANGE });
    let keys = key_bindings.keys();
    let n = keys.len();
    let ghost head = seq![
        XRequestView::RandrSelectInput { window: root, enable: NOTIFY_MASK_CRTC_CHANGE },
    ];
    for i in 0..n
        invariant
            n == keys@.len(),
            requests_view(r@) == head + keys@.subrange(0, i as int).map_values(
                |k: KeyCode| grab_key_view(root, k),
            ),
    {
        let k = keys[i];
        let ghost before = r@;
        r.push(
            XRequest::GrabKey {
                owner_events: false,
                grab_window: root,
                modifiers: k.mask,
                key: k.code,
                pointer_mode: GRAB_MODE_ASYNC,
                keyboard_mode: GRAB_MODE_ASYNC,
            },
        );
        assert(keys@.subrange(0, i + 1).map_values(|k: KeyCode| grab_key_view(root, k))
            =~= keys@.subrange(0, i as int).map_values(|k: KeyCode| grab_key_view(root, k)).push(
            grab_key_view(root, keys@[i as int]),
        ));
        assert(requests_view(r@) =~= requests_view(before).push(grab_key_view(root, k)));
    }
    assert(keys@.subrange(0, n as int) == keys@);
    let ghost mid = requests_view(r@);
    r.push(grab_button_request(root, 1));
    assert(requests_view(r@) =~= mid.push(grab_button_view(root, 1)));
    r.push(grab_button_request(root, 3));
    assert(requests_view(r@) =~= mid.push(grab_button_view(root, 1)).push(grab_button_view(root, 3)));
    let mut values: Vec<(u32, u32)> = Vec::new();
    values.push((CW_EVENT_MASK, ROOT_EVENT_MASK));
    r.push(XRequest::ChangeWindowAttributes { window: root, values });
    assert(requests_view(r@) =~= mid + seq![
        grab_button_view(root, 1),
        grab_button_view(root, 3),
        XRequestView::ChangeWindowAttributes {
            window: root,
            values: seq![(CW_EVENT_MASK, ROOT_EVENT_MASK)],
        },
    ]);
    proof {
        let n = key_bindings@.len();
        let ks = key_bindings@.map_values(|k: KeyCode| grab_key_view(root, k));
        assert(requests_view(r@).len() == r@.len());
        assert forall|i: int| 0 <= i < r@.len() implies requests_view(r@)[i] == #[trigger] r@[i]@ by {}
        assert forall|i: int| 0 <= i < n implies #[trigger] r@[i + 1]@ == grab_key_view(
            root,
            key_bindings@[i],
        ) by {
            assert(requests_view(r@)[i + 1] == ks[i]);
        }
    }
    r
}

/// Set `prop` on `window` to a single window ID.
pub open spec fn window_prop_view(window: WinId, prop: u32, value: WinId) -> XRequestView {
    XRequestView::ChangeProperty {
        mode: PROP_MODE_REPLACE,
        window,
        property: prop,
        property_type: ATOM_WINDOW,
        format: 32,
        data: PropDataView::Words(seq![value]),
    }
}

fn window_prop_request(window: WinId, prop: u32, value: WinId) -> (q: XRequest)
    ensures
        q@ == window_prop_view(window, prop, value),
{
    let mut data: Vec<u32> = Vec::new();
    data.push(value);
    XRequest::ChangeProperty {
        mode: PROP_MODE_REPLACE,
        window,
        property: prop,
        property_type: ATOM_WINDOW,
        format: 32,
        data: PropData::Words(data),
    }
}

/// The requests that advertise the window manager (EWMH): create the check window
/// `check_win` under `root`, point `_NET_SUPPORTING_WM_CHECK` of both windows at it, name
/// it, list every known atom as `_NET_SUPPORTED` on the root window, and clear
/// `_NET_CLIENT_LIST`.
pub fn wm_properties_requests(atoms: &AtomTable, root: WinId, check_win: WinId) -> (r: Vec<
    XRequest,
>)
    ensures
        requests_view(r@) == seq![
            stub_window_view(check_win, root),
            window_prop_view(check_win, atoms.id_of("_NET_SUPPORTING_WM_CHECK"@), check_win),
            XRequestView::ChangeProperty {
                mode: PROP_MODE_REPLACE,
                window: check_win,
                property: atoms.id_of("_NET_WM_NAME"@),
                property_type: ATOM_STRING,
                format: 8,
                data: PropDataView::Text(wm_name()),
            },
            window_prop_view(root, atoms.id_of("_NET_SUPPORTING_WM_CHECK"@), check_win),
            XRequestView::ChangeProperty {
                mode: PROP_MODE_REPLACE,
                window: root,
                property: atoms.id_of("_NET_SUPPORTED"@),
                property_type: ATOM_ATOM,
                format: 32,
                data: PropDataView::Words(atoms@),
            },
            XRequestView::DeleteProperty {
                window: root,
                property: atoms.id_of("_NET_CLIENT_LIST"@),
            },
        ],
{
    proof {
        assert(crate::atoms::known_atom_names()[8] == "_NET_CLIENT_LIST"@);
        assert(crate::atoms::known_atom_names()[9] == "_NET_SUPPORTED"@);
        assert(crate::atoms::known_atom_names()[10] == "_NET_SUPPORTING_WM_CHECK"@);
        assert(crate::atoms::known_atom_names()[15] == "_NET_WM_NAME"@);
    }
    let mut r: Vec<XRequest> = Vec::new();
    r.push(stub_window_request(check_win, root));
    r.push(window_prop_request(check_win, atoms.atom("_NET_SUPPORTING_WM_CHECK"), check_win));
    r.push(
        XRequest::ChangeProperty {
            mode: PROP_MODE_REPLACE,
            window: check_win,
            property: atoms.atom("_NET_WM_NAME"),
            property_type: ATOM_STRING,
            format: 8,
            data: PropData::Text(<String as StringExecFns>::from_str("penrose")),
        },
    );
    r.push(window_prop_request(root, atoms.atom("_NET_SUPPORTING_WM_CHECK"), check_win));
    let supported = atoms.supported();
    r.push(
        XRequest::ChangeProperty {
            mode: PROP_MODE_REPLACE,
            window: root,
            property: atoms.atom("_NET_SUPPORTED"),
            property_type: ATOM_ATOM,
            format: 32,
            data: PropData::Words(supported),
        },
    );
    r.push(XRequest::DeleteProperty { window: root, property: atoms.atom("_NET_CLIENT_LIST") });
    assert(requests_view(r@) =~= seq![r@[0]@, r@[1]@, r@[2]@, r@[3]@, r@[4]@, r@[5]@]);
    r
}

/// Fetch the property called `name` of the window `id`, of any type: its first
/// `PROPERTY_LENGTH` 32-bit units, without deleting it.
pub fn property_request(atoms: &AtomTable, id: WinId, name: &str) -> (q: XRequest)
    requires
        is_known_atom(name@),
    ensures
        q@ == (XRequestView::GetProperty {
            delete: false,
            window: id,
            property: atoms.id_of(name@),
            property_type: ATOM_ANY,
            long_offset: 0,
            long_length: PROPERTY_LENGTH,
        }),
{
    XRequest::GetProperty {
        delete: false,
        window: id,
        property: atoms.atom(name),
        property_type: ATOM_ANY,
        long_offset: 0,
        long_length: PROPERTY_LENGTH,
    }
}

/// What is reported when a property is asked for by a name that is not a known atom.
pub open spec fn unknown_atom_error(name: Seq<char>) -> Seq<char> {
    name + " is not a known atom"@
}

/// The query for the string property called `name` of the window `id` (see
/// [`property_request`]); an error when `name` is not a known atom, since no property
/// of that name can be asked for.
pub fn str_prop_request(atoms: &AtomTable, id: WinId, name: &str) -> (r: Result<XRequest, String>)
    ensures
        r is Err <==> !is_known_atom(name@),
        r matches Ok(q) ==> q@ == (XRequestView::GetProperty {
            delete: false,
            window: id,
            property: atoms.id_of(name@),
            property_type: ATOM_ANY,
            long_offset: 0,
            long_length: PROPERTY_LENGTH,
        }),
        r matches Err(m) ==> m@ == unknown_atom_error(name@),
{
    if is_known_atom_name(name) {
        Ok(property_request(atoms, id, name))
    } else {
        let mut m = <String as StringExecFns>::from_str(name);
        m.append(" is not a known atom");
        Err(m)
    }
}

} // verus!
