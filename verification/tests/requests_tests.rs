use penrose::atoms::{AtomTable, N_ATOMS};
use penrose::data_types::{KeyBindings, KeyCode, Region};
use penrose::requests::{
    border_color_request, client_event_request, focus_client_requests, grab_keys_requests,
    map_window_request, mark_new_window_request, position_window_request, property_request,
    str_prop_request, stub_window_request, unmap_window_request, wm_properties_requests,
    PropData, XRequest,
    EVENT_MASK_BUTTON_PRESS, EVENT_MASK_BUTTON_RELEASE, EVENT_MASK_POINTER_MOTION, MOUSE_MASK,
    NEW_WINDOW_EVENT_MASK, ROOT_EVENT_MASK,
};

fn table() -> AtomTable {
    AtomTable::from_interned((0..N_ATOMS as u32).map(|i| 300 + i).collect()).unwrap()
}

#[test]
fn mask_constants() {
    assert_eq!(NEW_WINDOW_EVENT_MASK, 48);
    assert_eq!(
        MOUSE_MASK as u32,
        EVENT_MASK_BUTTON_PRESS | EVENT_MASK_BUTTON_RELEASE | EVENT_MASK_POINTER_MOTION
    );
    assert_eq!(ROOT_EVENT_MASK, 1 << 19);
}

#[test]
fn stub_window() {
    assert_eq!(
        stub_window_request(7, 1),
        XRequest::CreateWindow {
            depth: 0,
            wid: 7,
            parent: 1,
            x: 0,
            y: 0,
            width: 1,
            height: 1,
            border_width: 0,
            class: 0,
            visual: 0,
        }
    );
}

#[test]
fn position_window() {
    assert_eq!(
        position_window_request(5, Region::new(10, 20, 640, 480), 2),
        XRequest::ConfigureWindow {
            window: 5,
            values: vec![(1, 10), (2, 20), (4, 640), (8, 480), (16, 2)],
        }
    );
}

#[test]
fn window_attribute_requests() {
    assert_eq!(
        mark_new_window_request(5),
        XRequest::ChangeWindowAttributes { window: 5, values: vec![(2048, 48)] }
    );
    assert_eq!(
        border_color_request(5, 0xcc241d),
        XRequest::ChangeWindowAttributes { window: 5, values: vec![(8, 0xcc241d)] }
    );
    assert_eq!(map_window_request(5), XRequest::MapWindow { window: 5 });
    assert_eq!(unmap_window_request(5), XRequest::UnmapWindow { window: 5 });
}

#[test]
fn client_event() {
    assert_eq!(
        client_event_request(&table(), 9, "WM_DELETE_WINDOW"),
        XRequest::SendClientMessage {
            propagate: false,
            destination: 9,
            event_mask: 0,
            format: 32,
            window: 9,
            message_type: 304,
            data: [303, 0, 0, 0, 0],
        }
    );
}

#[test]
fn focus_client() {
    assert_eq!(
        focus_client_requests(&table(), 1, 9),
        vec![
            XRequest::SetInputFocus { revert_to: 2, focus: 9, time: 0 },
            XRequest::ChangeProperty {
                mode: 0,
                window: 1,
                property: 307,
                property_type: 33,
                format: 32,
                data: PropData::Words(vec![9]),
            },
        ]
    );
}

fn grab_button(button: u8) -> XRequest {
    XRequest::GrabButton {
        owner_events: false,
        grab_window: 1,
        event_mask: 76,
        pointer_mode: 1,
        keyboard_mode: 1,
        confine_to: 0,
        cursor: 0,
        button,
        modifiers: 64,
    }
}

#[test]
fn grab_keys() {
    let mut keys = KeyBindings::new();
    keys.bind(KeyCode { mask: 64, code: 24 });
    keys.bind(KeyCode { mask: 65, code: 36 });
    keys.bind(KeyCode { mask: 64, code: 24 });
    let key = |mask, code| XRequest::GrabKey {
        owner_events: false,
        grab_window: 1,
        modifiers: mask,
        key: code,
        pointer_mode: 1,
        keyboard_mode: 1,
    };
    assert_eq!(
        grab_keys_requests(1, &keys),
        vec![
            XRequest::RandrSelectInput { window: 1, enable: 2 },
            key(64, 24),
            key(65, 36),
            grab_button(1),
            grab_button(3),
            XRequest::ChangeWindowAttributes { window: 1, values: vec![(2048, 524288)] },
        ]
    );
}

#[test]
fn grab_keys_without_bindings_still_grabs_buttons() {
    assert_eq!(
        grab_keys_requests(1, &KeyBindings::new()),
        vec![
            XRequest::RandrSelectInput { window: 1, enable: 2 },
            grab_button(1),
            grab_button(3),
            XRequest::ChangeWindowAttributes { window: 1, values: vec![(2048, 524288)] },
        ]
    );
}

#[test]
fn wm_properties() {
    let prop = |window, property, value| XRequest::ChangeProperty {
        mode: 0,
        window,
        property,
        property_type: 33,
        format: 32,
        data: PropData::Words(vec![value]),
    };
    assert_eq!(
        wm_properties_requests(&table(), 1, 8),
        vec![
            stub_window_request(8, 1),
            prop(8, 310, 8),
            XRequest::ChangeProperty {
                mode: 0,
                window: 8,
                property: 315,
                property_type: 31,
                format: 8,
                data: PropData::Text(String::from("penrose")),
            },
            prop(1, 310, 8),
            XRequest::ChangeProperty {
                mode: 0,
                window: 1,
                property: 309,
                property_type: 4,
                format: 32,
                data: PropData::Words((300..322).collect()),
            },
            XRequest::DeleteProperty { window: 1, property: 308 },
        ]
    );
}

#[test]
fn property_query() {
    assert_eq!(
        property_request(&table(), 9, "WM_CLASS"),
        XRequest::GetProperty {
            delete: false,
            window: 9,
            property: 302,
            property_type: 0,
            long_offset: 0,
            long_length: 1024,
        }
    );
}

#[test]
fn string_property_query() {
    assert_eq!(
        str_prop_request(&table(), 9, "WM_CLASS"),
        Ok(property_request(&table(), 9, "WM_CLASS"))
    );
    assert_eq!(
        str_prop_request(&table(), 9, "WM_NAME"),
        Err(String::from("WM_NAME is not a known atom"))
    );
    assert_eq!(str_prop_request(&table(), 9, ""), Err(String::from(" is not a known atom")));
}

#[test]
fn key_bindings_hold_each_key_once() {
    let mut keys = KeyBindings::new();
    assert!(keys.keys().is_empty());
    keys.bind(KeyCode { mask: 8, code: 10 });
    keys.bind(KeyCode { mask: 0, code: 10 });
    keys.bind(KeyCode { mask: 8, code: 10 });
    assert_eq!(keys.keys(), &vec![KeyCode { mask: 8, code: 10 }, KeyCode { mask: 0, code: 10 }]);
}
