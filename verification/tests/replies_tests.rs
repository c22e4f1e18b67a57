use penrose::data_types::{CrtcInfo, Region, Screen};
use penrose::replies::{
    atom_prop_from_reply, screens_from_crtcs, str_prop_from_decoded, str_prop_from_reply,
};
use penrose::text::decimal_string;

fn crtc(x: i16, y: i16, width: u16, height: u16) -> Option<CrtcInfo> {
    Some(CrtcInfo { x, y, width, height })
}

#[test]
fn screens_are_numbered_before_empty_ones_are_dropped() {
    let infos = vec![crtc(0, 0, 1920, 1080), None, crtc(0, 0, 0, 0), crtc(1920, 0, 1280, 1024)];
    assert_eq!(
        screens_from_crtcs(&infos),
        vec![
            Screen::new(Region::new(0, 0, 1920, 1080), 0),
            Screen::new(Region::new(1920, 0, 1280, 1024), 2),
        ]
    );
}

#[test]
fn no_outputs() {
    assert_eq!(screens_from_crtcs(&vec![]), vec![]);
    assert_eq!(screens_from_crtcs(&vec![None, crtc(5, 5, 0, 10)]), vec![]);
}

#[test]
fn negative_positions_wrap_as_unsigned() {
    let s = Screen::from_crtc_info(CrtcInfo { x: -1, y: -1920, width: 800, height: 600 }, 3);
    assert_eq!(s.true_region, Region::new(u32::MAX, (-1920i32) as u32, 800, 600));
    assert_eq!(s.effective_region, s.true_region);
    assert_eq!(s.wix, 3);
}

#[test]
fn string_properties() {
    assert_eq!(str_prop_from_reply(Ok(b"firefox".to_vec())), Ok(String::from("firefox")));
    assert_eq!(str_prop_from_reply(Ok("grüße".as_bytes().to_vec())), Ok(String::from("grüße")));
    assert_eq!(str_prop_from_reply(Ok(vec![])), Ok(String::new()));
    assert_eq!(
        str_prop_from_reply(Err(String::from("BadWindow"))),
        Err(String::from("unable to fetch window property: BadWindow"))
    );
}

#[test]
fn invalid_utf8_string_property() {
    let bytes = vec![b'a', 0xff, b'b'];
    let expected = String::from_utf8(bytes.clone()).unwrap_err().to_string();
    assert_eq!(
        str_prop_from_reply(Ok(bytes)),
        Err(format!("invalid utf8 resonse from xcb: {}", expected))
    );
}

#[test]
fn atom_properties() {
    assert_eq!(atom_prop_from_reply(5, "_NET_WM_WINDOW_TYPE", Ok((1, vec![318]))), Ok(318));
    assert_eq!(atom_prop_from_reply(5, "_NET_WM_STATE", Ok((2, vec![7, 8]))), Ok(7));
    assert_eq!(
        atom_prop_from_reply(4194311, "_NET_WM_WINDOW_TYPE", Ok((0, vec![]))),
        Err(String::from("property '_NET_WM_WINDOW_TYPE' was empty for id: 4194311"))
    );
    assert_eq!(
        atom_prop_from_reply(5, "WM_STATE", Err(String::from("BadAtom"))),
        Err(String::from("unable to fetch window property: BadAtom"))
    );
}

#[test]
fn decimal_strings() {
    for n in [0u32, 7, 10, 99, 100, 4194311, u32::MAX] {
        assert_eq!(decimal_string(n), n.to_string());
    }
}

#[test]
fn decoded_string_properties() {
    assert_eq!(str_prop_from_decoded(Ok(String::from("xterm"))), Ok(String::from("xterm")));
    assert_eq!(
        str_prop_from_decoded(Err(String::from("bad byte"))),
        Err(String::from("invalid utf8 resonse from xcb: bad byte"))
    );
}
