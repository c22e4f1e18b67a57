use penrose::data_types::{KeyBindings, KeyCode, Region, Screen};
use penrose::xconnection::{
    MockXConn, RawEvent, XConn, XEvent, BUTTON_PRESS, BUTTON_RELEASE, DESTROY_NOTIFY,
    ENTER_NOTIFY, KEY_PRESS, LEAVE_NOTIFY, MAP_NOTIFY, UNMAP_NOTIFY,
};

fn raw(response_type: u8) -> RawEvent {
    RawEvent {
        response_type,
        detail: 38,
        state: 64,
        window: 0x400001,
        override_redirect: true,
        event: 0x600002,
    }
}

#[test]
fn key_press_carries_mask_and_code() {
    assert_eq!(
        XEvent::from_raw(&raw(KEY_PRESS)),
        Some(XEvent::KeyPress { code: KeyCode { mask: 64, code: 38 } })
    );
}

#[test]
fn map_notify_carries_window_and_override_redirect() {
    assert_eq!(
        XEvent::from_raw(&raw(MAP_NOTIFY)),
        Some(XEvent::MapNotify { window: 0x400001, ignore: true })
    );
    let mut r = raw(MAP_NOTIFY);
    r.override_redirect = false;
    assert_eq!(
        XEvent::from_raw(&r),
        Some(XEvent::MapNotify { window: 0x400001, ignore: false })
    );
}

#[test]
fn enter_and_leave_use_the_event_window() {
    assert_eq!(XEvent::from_raw(&raw(ENTER_NOTIFY)), Some(XEvent::Enter { window: 0x600002 }));
    assert_eq!(XEvent::from_raw(&raw(LEAVE_NOTIFY)), Some(XEvent::Leave { window: 0x600002 }));
}

#[test]
fn destroy_uses_the_destroyed_window() {
    assert_eq!(
        XEvent::from_raw(&raw(DESTROY_NOTIFY)),
        Some(XEvent::Destroy { window: 0x400001 })
    );
}

#[test]
fn button_events_are_dropped() {
    assert_eq!(XEvent::from_raw(&raw(BUTTON_PRESS)), None);
    assert_eq!(XEvent::from_raw(&raw(BUTTON_RELEASE)), None);
}

#[test]
fn other_events_are_dropped() {
    assert_eq!(XEvent::from_raw(&raw(UNMAP_NOTIFY)), None);
    assert_eq!(XEvent::from_raw(&raw(0)), None);
    assert_eq!(XEvent::from_raw(&raw(33)), None);
    // a key press sent by another client has the high bit set
    assert_eq!(XEvent::from_raw(&raw(0x80 | KEY_PRESS)), None);
}

fn screens() -> Vec<Screen> {
    vec![
        Screen::new(Region::new(0, 0, 1920, 1080), 0),
        Screen::new(Region::new(1920, 0, 1280, 1024), 1),
    ]
}

#[test]
fn mock_reports_the_screens_it_was_made_with() {
    let conn = MockXConn::new(screens());
    assert_eq!(conn.current_outputs(), screens());
    assert_eq!(MockXConn::new(vec![]).current_outputs(), vec![]);
}

#[test]
fn mock_flushes_and_has_no_events() {
    let conn = MockXConn::new(screens());
    assert!(conn.flush());
    assert_eq!(conn.wait_for_event(), None);
}

#[test]
fn mock_echoes_property_queries() {
    let conn = MockXConn::new(vec![]);
    assert_eq!(conn.str_prop(7, "WM_CLASS"), Ok(String::from("WM_CLASS")));
    assert_eq!(conn.str_prop(7, ""), Ok(String::new()));
    assert_eq!(conn.atom_prop(42, "_NET_WM_WINDOW_TYPE"), Ok(42));
}

#[test]
fn mock_ignores_requests() {
    let conn = MockXConn::new(screens());
    conn.position_window(1, Region::new(1, 2, 3, 4), 2);
    conn.mark_new_window(1);
    conn.map_window(1);
    conn.unmap_window(1);
    conn.send_client_event(1, "WM_DELETE_WINDOW");
    conn.focus_client(1);
    conn.set_client_border_color(1, 0xff0000);
    let mut keys = KeyBindings::new();
    keys.bind(KeyCode { mask: 64, code: 24 });
    conn.grab_keys(&keys);
    conn.set_wm_properties();
    assert_eq!(conn.current_outputs(), screens());
}

#[test]
fn region_accessors() {
    let r = Region::new(10, 20, 300, 400);
    assert_eq!(r.values(), (10, 20, 300, 400));
    assert_eq!(r.width(), 300);
    assert_eq!(r.height(), 400);
}
