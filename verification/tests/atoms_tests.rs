use penrose::atoms::{atom_name, is_known_atom_name, AtomTable, N_ATOMS};

fn table() -> AtomTable {
    AtomTable::from_interned((0..N_ATOMS as u32).map(|i| 300 + i).collect()).unwrap()
}

#[test]
fn atom_names_in_order() {
    assert_eq!(N_ATOMS, 22);
    assert_eq!(atom_name(0), "MANAGER");
    assert_eq!(atom_name(4), "WM_PROTOCOLS");
    assert_eq!(atom_name(7), "_NET_ACTIVE_WINDOW");
    assert_eq!(atom_name(21), "_XEMBED_INFO");
}

#[test]
fn known_atom_names() {
    assert!(is_known_atom_name("WM_DELETE_WINDOW"));
    assert!(is_known_atom_name("_NET_WM_STATE_FULLSCREEN"));
    assert!(!is_known_atom_name("_NET_WM_STATE_HIDDEN"));
    assert!(!is_known_atom_name(""));
    assert!(!is_known_atom_name("wm_protocols"));
}

#[test]
fn table_needs_one_id_per_atom() {
    assert!(AtomTable::from_interned(vec![]).is_none());
    assert!(AtomTable::from_interned(vec![1; 21]).is_none());
    assert!(AtomTable::from_interned(vec![1; 23]).is_none());
    assert!(AtomTable::from_interned(vec![1; 22]).is_some());
}

#[test]
fn lookup_after_intern_gives_the_interned_id() {
    let t = table();
    for i in 0..N_ATOMS {
        assert_eq!(t.lookup(atom_name(i)), Some(300 + i as u32));
        assert_eq!(t.atom(atom_name(i)), 300 + i as u32);
    }
    assert_eq!(t.lookup("WM_PROTOCOLS"), Some(304));
    assert_eq!(t.lookup("NOT_AN_ATOM"), None);
}

#[test]
fn supported_lists_every_id() {
    let t = table();
    assert_eq!(t.supported(), (0..N_ATOMS as u32).map(|i| 300 + i).collect::<Vec<u32>>());
}
