//! The atoms that the window manager interns when it connects, and the table of their IDs.
use vstd::prelude::*;
use vstd::string::StringExecFns;

verus! {

/// How many atoms are interned on connecting.
pub const N_ATOMS: usize = 22;

/// The names of the atoms that are interned on connecting, in order.
pub open spec fn known_atom_names() -> Seq<Seq<char>> {
    seq![
        "MANAGER"@,
        "UTF8_STRING"@,
        "WM_CLASS"@,
        "WM_DELETE_WINDOW"@,
        "WM_PROTOCOLS"@,
        "WM_STATE"@,
        "WM_TAKE_FOCUS"@,
        "_NET_ACTIVE_WINDOW"@,
        "_NET_CLIENT_LIST"@,
        "_NET_SUPPORTED"@,
        "_NET_SUPPORTING_WM_CHECK"@,
        "_NET_SYSTEM_TRAY_OPCODE"@,
        "_NET_SYSTEM_TRAY_ORIENTATION"@,
        "_NET_SYSTEM_TRAY_ORIENTATION_HORZ"@,
        "_NET_SYSTEM_TRAY_S0"@,
        "_NET_WM_NAME"@,
        "_NET_WM_STATE"@,
        "_NET_WM_STATE_FULLSCREEN"@,
        "_NET_WM_WINDOW_TYPE"@,
        "_NET_WM_WINDOW_TYPE_DIALOG"@,
        "_XEMBED"@,
        "_XEMBED_INFO"@,
    ]
}

/// The atoms interned on connecting are these 22, in this order: the ICCCM atoms, then
/// the EWMH ones (active window, client list, supported hints, the supporting-WM check,
/// the system tray, the window name, state and type, fullscreen and dialog), then XEmbed.
/// Each of them is a known atom.
pub proof fn lemma_known_atoms_listed()
    ensures
        known_atom_names().len() == 22,
        known_atom_names()[0] == "MANAGER"@,
        known_atom_names()[1] == "UTF8_STRING"@,
        known_atom_names()[2] == "WM_CLASS"@,
        known_atom_names()[3] == "WM_DELETE_WINDOW"@,
        known_atom_names()[4] == "WM_PROTOCOLS"@,
        known_atom_names()[5] == "WM_STATE"@,
        known_atom_names()[6] == "WM_TAKE_FOCUS"@,
        known_atom_names()[7] == "_NET_ACTIVE_WINDOW"@,
        known_atom_names()[8] == "_NET_CLIENT_LIST"@,
        known_atom_names()[9] == "_NET_SUPPORTED"@,
        known_atom_names()[10] == "_NET_SUPPORTING_WM_CHECK"@,
        known_atom_names()[11] == "_NET_SYSTEM_TRAY_OPCODE"@,
        known_atom_names()[12] == "_NET_SYSTEM_TRAY_ORIENTATION"@,
        known_atom_names()[13] == "_NET_SYSTEM_TRAY_ORIENTATION_HORZ"@,
        known_atom_names()[14] == "_NET_SYSTEM_TRAY_S0"@,
        known_atom_names()[15] == "_NET_WM_NAME"@,
        known_atom_names()[16] == "_NET_WM_STATE"@,
        known_atom_names()[17] == "_NET_WM_STATE_FULLSCREEN"@,
        known_atom_names()[18] == "_NET_WM_WINDOW_TYPE"@,
        known_atom_names()[19] == "_NET_WM_WINDOW_TYPE_DIALOG"@,
        known_atom_names()[20] == "_XEMBED"@,
        known_atom_names()[21] == "_XEMBED_INFO"@,
        is_known_atom("MANAGER"@),
        is_known_atom("UTF8_STRING"@),
        is_known_atom("WM_CLASS"@),
        is_known_atom("WM_DELETE_WINDOW"@),
        is_known_atom("WM_PROTOCOLS"@),
        is_known_atom("WM_STATE"@),
        is_known_atom("WM_TAKE_FOCUS"@),
        is_known_atom("_NET_ACTIVE_WINDOW"@),
        is_known_atom("_NET_CLIENT_LIST"@),
        is_known_atom("_NET_SUPPORTED"@),
        is_known_atom("_NET_SUPPORTING_WM_CHECK"@),
        is_known_atom("_NET_SYSTEM_TRAY_OPCODE"@),
        is_known_atom("_NET_SYSTEM_TRAY_ORIENTATION"@),
        is_known_atom("_NET_SYSTEM_TRAY_ORIENTATION_HORZ"@),
        is_known_atom("_NET_SYSTEM_TRAY_S0"@),
        is_known_atom("_NET_WM_NAME"@),
        is_known_atom("_NET_WM_STATE"@),
        is_known_atom("_NET_WM_STATE_FULLSCREEN"@),
        is_known_atom("_NET_WM_WINDOW_TYPE"@),
        is_known_atom("_NET_WM_WINDOW_TYPE_DIALOG"@),
        is_known_atom("_XEMBED"@),
        is_known_atom("_XEMBED_INFO"@),
{
    assert(known_atom_names()[0] == "MANAGER"@);
    assert(known_atom_names()[1] == "UTF8_STRING"@);
    assert(known_atom_names()[2] == "WM_CLASS"@);
    assert(known_atom_names()[3] == "WM_DELETE_WINDOW"@);
    assert(known_atom_names()[4] == "WM_PROTOCOLS"@);
    assert(known_atom_names()[5] == "WM_STATE"@);
    assert(known_atom_names()[6] == "WM_TAKE_FOCUS"@);
    assert(known_atom_names()[7] == "_NET_ACTIVE_WINDOW"@);
    assert(known_atom_names()[8] == "_NET_CLIENT_LIST"@);
    assert(known_atom_names()[9] == "_NET_SUPPORTED"@);
    assert(known_atom_names()[10] == "_NET_SUPPORTING_WM_CHECK"@);
    assert(known_atom_names()[11] == "_NET_SYSTEM_TRAY_OPCODE"@);
    assert(known_atom_names()[12] == "_NET_SYSTEM_TRAY_ORIENTATION"@);
    assert(known_atom_names()[13] == "_NET_SYSTEM_TRAY_ORIENTATION_HORZ"@);
    assert(known_atom_names()[14] == "_NET_SYSTEM_TRAY_S0"@);
    assert(known_atom_names()[15] == "_NET_WM_NAME"@);
    assert(known_atom_names()[16] == "_NET_WM_STATE"@);
    assert(known_atom_names()[17] == "_NET_WM_STATE_FULLSCREEN"@);
    assert(known_atom_names()[18] == "_NET_WM_WINDOW_TYPE"@);
    assert(known_atom_names()[19] == "_NET_WM_WINDOW_TYPE_DIALOG"@);
    assert(known_atom_names()[20] == "_XEMBED"@);
    assert(known_atom_names()[21] == "_XEMBED_INFO"@);
}

/// Whether `name` is the name of an atom that is interned on connecting.
pub open spec fn is_known_atom(name: Seq<char>) -> bool {
    known_atom_names().contains(name)
}

/// `k` is the first position of `name` among the known atom names.
pub open spec fn is_first_position(name: Seq<char>, k: int) -> bool {
    &&& 0 <= k < known_atom_names().len()
    &&& known_atom_names()[k] == name
    &&& forall|j: int| 0 <= j < k ==> known_atom_names()[j] != name
}

/// The position of a known atom name among the known atom names (the first one).
pub open spec fn atom_position(name: Seq<char>) -> int {
    choose|k: int| is_first_position(name, k)
}

/// A name has at most one first position, and a known name has one.
pub proof fn lemma_atom_position(name: Seq<char>, k: int)
    requires
        is_first_position(name, k),
    ensures
        atom_position(name) == k,
{
    let c = atom_position(name);
    assert(is_first_position(name, c));
    if c < k {
        assert(known_atom_names()[c] != name);
    } else if k < c {
        assert(known_atom_names()[k] != name);
    }
}

/// The known atom names are pairwise distinct: names of different lengths differ, and
/// for each pair of names of the same length a position where they differ is given.
pub proof fn lemma_atom_names_distinct()
    ensures
        forall|i: int, j: int|
            0 <= i < N_ATOMS && 0 <= j < N_ATOMS && i != j ==> #[trigger] known_atom_names()[i]
                != #[trigger] known_atom_names()[j],
{
    reveal_strlit("MANAGER");
    reveal_strlit("UTF8_STRING");
    reveal_strlit("WM_CLASS");
    reveal_strlit("WM_DELETE_WINDOW");
    reveal_strlit("WM_PROTOCOLS");
    reveal_strlit("WM_STATE");
    reveal_strlit("WM_TAKE_FOCUS");
    reveal_strlit("_NET_ACTIVE_WINDOW");
    reveal_strlit("_NET_CLIENT_LIST");
    reveal_strlit("_NET_SUPPORTED");
    reveal_strlit("_NET_SUPPORTING_WM_CHECK");
    reveal_strlit("_NET_SYSTEM_TRAY_OPCODE");
    reveal_strlit("_NET_SYSTEM_TRAY_ORIENTATION");
    reveal_strlit("_NET_SYSTEM_TRAY_ORIENTATION_HORZ");
    reveal_strlit("_NET_SYSTEM_TRAY_S0");
    reveal_strlit("_NET_WM_NAME");
    reveal_strlit("_NET_WM_STATE");
    reveal_strlit("_NET_WM_STATE_FULLSCREEN");
    reveal_strlit("_NET_WM_WINDOW_TYPE");
    reveal_strlit("_NET_WM_WINDOW_TYPE_DIALOG");
    reveal_strlit("_XEMBED");
    reveal_strlit("_XEMBED_INFO");
    assert(known_atom_names()[0].len() == 7);
    assert(known_atom_names()[1].len() == 11);
    assert(known_atom_names()[2].len() == 8);
    assert(known_atom_names()[3].len() == 16);
    assert(known_atom_names()[4].len() == 12);
    assert(known_atom_names()[5].len() == 8);
    assert(known_atom_names()[6].len() == 13);
    assert(known_atom_names()[7].len() == 18);
    assert(known_atom_names()[8].len() == 16);
    assert(known_atom_names()[9].len() == 14);
    assert(known_atom_names()[10].len() == 24);
    assert(known_atom_names()[11].len() == 23);
    assert(known_atom_names()[12].len() == 28);
    assert(known_atom_names()[13].len() == 33);
    assert(known_atom_names()[14].len() == 19);
    assert(known_atom_names()[15].len() == 12);
    assert(known_atom_names()[16].len() == 13);
    assert(known_atom_names()[17].len() == 24);
    assert(known_atom_names()[18].len() == 19);
    assert(known_atom_names()[19].len() == 26);
    assert(known_atom_names()[20].len() == 7);
    assert(known_atom_names()[21].len() == 12);
    assert(known_atom_names()[0][0] != known_atom_names()[20][0]);
    assert(known_atom_names()[2][3] != known_atom_names()[5][3]);
    assert(known_atom_names()[3][0] != known_atom_names()[8][0]);
    assert(known_atom_names()[4][0] != known_atom_names()[15][0]);
    assert(known_atom_names()[4][0] != known_atom_names()[21][0]);
    assert(known_atom_names()[6][0] != known_atom_names()[16][0]);
    assert(known_atom_names()[10][5] != known_atom_names()[17][5]);
    assert(known_atom_names()[14][5] != known_atom_names()[18][5]);
    assert(known_atom_names()[15][1] != known_atom_names()[21][1]);
    assert forall|i: int, j: int|
        0 <= i < N_ATOMS && 0 <= j < N_ATOMS && i != j implies #[trigger] known_atom_names()[i]
            != #[trigger] known_atom_names()[j] by {
        assert(
            i == 0 || i == 1 || i == 2 || i == 3 || i == 4 || i == 5 || i == 6 || i == 7
                || i == 8 || i == 9 || i == 10 || i == 11 || i == 12 || i == 13 || i == 14 || i == 15
                || i == 16 || i == 17 || i == 18 || i == 19 || i == 20 || i == 21
        );
        assert(
            j == 0 || j == 1 || j == 2 || j == 3 || j == 4 || j == 5 || j == 6 || j == 7
                || j == 8 || j == 9 || j == 10 || j == 11 || j == 12 || j == 13 || j == 14 || j == 15
                || j == 16 || j == 17 || j == 18 || j == 19 || j == 20 || j == 21
        );
    }
}

/// Each known atom name has its own position: the `i`-th name is found at position `i`.
pub proof fn lemma_atom_position_of_name(i: int)
    requires
        0 <= i < N_ATOMS,
    ensures
        atom_position(known_atom_names()[i]) == i,
{
    lemma_atom_names_distinct();
    lemma_atom_position(known_atom_names()[i], i);
}

/// The name of the `i`-th atom that is interned on connecting.
pub fn atom_name(i: usize) -> (r: &'static str)
    requires
        i < N_ATOMS,
    ensures
        r@ == known_atom_names()[i as int],
{
    match i {
        0 => "MANAGER",
        1 => "UTF8_STRING",
        2 => "WM_CLASS",
        3 => "WM_DELETE_WINDOW",
        4 => "WM_PROTOCOLS",
        5 => "WM_STATE",
        6 => "WM_TAKE_FOCUS",
        7 => "_NET_ACTIVE_WINDOW",
        8 => "_NET_CLIENT_LIST",
        9 => "_NET_SUPPORTED",
        10 => "_NET_SUPPORTING_WM_CHECK",
        11 => "_NET_SYSTEM_TRAY_OPCODE",
        12 => "_NET_SYSTEM_TRAY_ORIENTATION",
        13 => "_NET_SYSTEM_TRAY_ORIENTATION_HORZ",
        14 => "_NET_SYSTEM_TRAY_S0",
        15 => "_NET_WM_NAME",
        16 => "_NET_WM_STATE",
        17 => "_NET_WM_STATE_FULLSCREEN",
        18 => "_NET_WM_WINDOW_TYPE",
        19 => "_NET_WM_WINDOW_TYPE_DIALOG",
        20 => "_XEMBED",
        _ => "_XEMBED_INFO",
    }
}

/// The first position of `name` among the known atom names, if it is one of them.
fn find_atom(name: &str) -> (r: Option<usize>)
    ensures
        r is Some <==> is_known_atom(name@),
        r matches Some(k) ==> is_first_position(name@, k as int),
{
    let target = <String as StringExecFns>::from_str(name);
    for i in 0..N_ATOMS
        invariant
            target@ == name@,
            forall|j: int| 0 <= j < i ==> known_atom_names()[j] != name@,
    {
        let candidate = <String as StringExecFns>::from_str(atom_name(i));
        if candidate == target {
            return Some(i);
        }
    }
    assert(!is_known_atom(name@)) by {
        if known_atom_names().contains(name@) {
            let k = choose|k: int| 0 <= k < known_atom_names().len() && known_atom_names()[k] == name@;
            assert(known_atom_names()[k] != name@);
        }
    }
    None
}

/// Whether `name` is the name of an atom that is interned on connecting.
pub fn is_known_atom_name(name: &str) -> (r: bool)
    ensures
        r == is_known_atom(name@),
{
    find_atom(name).is_some()
}

/// The IDs that the X server gave the known atoms, in the order of their names.
///
/// A table holds one ID for each known atom from the moment it is made, and it never
/// changes: no method takes it mutably. So every known atom can be looked up in it at
/// any time.
pub struct AtomTable {
    ids: Vec<u32>,
}

impl View for AtomTable {
    type V = Seq<u32>;

    closed spec fn view(&self) -> Seq<u32> {
        self.ids@
    }
}

impl AtomTable {
    /// A table holds one ID for each known atom.
    pub open spec fn wf(&self) -> bool {
        self@.len() == N_ATOMS
    }

    #[verifier::type_invariant]
    spec fn holds_every_atom(self) -> bool {
        self.ids@.len() == N_ATOMS
    }

    /// The ID of a known atom, by name.
    pub open spec fn id_of(&self, name: Seq<char>) -> u32 {
        self@[atom_position(name)]
    }

    /// The table of the IDs that interning the known atoms gave, in the order of
    /// [`atom_name`]; `None` unless there is one ID for each atom.
    pub fn from_interned(ids: Vec<u32>) -> (r: Option<AtomTable>)
        ensures
            r is Some <==> ids@.len() == N_ATOMS,
            r matches Some(t) ==> t.wf() && t@ == ids@,
    {
        if ids.len() == N_ATOMS {
            Some(AtomTable { ids })
        } else {
            None
        }
    }

    /// The ID of the atom called `name`, if it is a known atom.
    pub fn lookup(&self, name: &str) -> (r: Option<u32>)
        ensures
            self.wf(),
            r is Some <==> is_known_atom(name@),
            r matches Some(id) ==> id == self.id_of(name@),
    {
        proof {
            use_type_invariant(self);
        }
        match find_atom(name) {
            Some(k) => {
                proof {
                    lemma_atom_position(name@, k as int);
                }
                Some(self.ids[k])
            },
            None => None,
        }
    }

    /// The ID of the known atom called `name`.
    pub fn atom(&self, name: &str) -> (r: u32)
        requires
            is_known_atom(name@),
        ensures
            self.wf(),
            r == self.id_of(name@),
    {
        match self.lookup(name) {
            Some(id) => id,
            None => 0,
        }
    }

    /// The IDs of all known atoms, looked up by name, in the order of their names: the
    /// whole table.
    pub fn supported(&self) -> (r: Vec<u32>)
        ensures
            self.wf(),
            r@ == self@,
            forall|i: int| 0 <= i < N_ATOMS ==> r@[i] == #[trigger] self.id_of(known_atom_names()[i]),
    {
        proof {
            use_type_invariant(self);
        }
        let mut out: Vec<u32> = Vec::new();
        for i in 0..N_ATOMS
            invariant
                self.wf(),
                out@ == self@.subrange(0, i as int),
                forall|j: int| 0 <= j < i ==> out@[j] == #[trigger] self.id_of(known_atom_names()[j]),
        {
            let name = atom_name(i);
            proof {
                assert(known_atom_names().contains(name@)) by {
                    assert(known_atom_names()[i as int] == name@);
                }
                lemma_atom_position_of_name(i as int);
            }
            out.push(self.atom(name));
            assert(self@.subrange(0, i + 1) == self@.subrange(0, i as int).push(self@[i as int]));
        }
        assert(self@.subrange(0, N_ATOMS as int) == self@);
        out
    }
}

/// Interning the known atoms and then looking one up by name gives the ID that
/// interning gave it: the `i`-th known name maps to the `i`-th ID of the table.
pub proof fn lemma_lookup_after_intern(table: AtomTable, i: int)
    requires
        table.wf(),
        0 <= i < N_ATOMS,
    ensures
        is_known_atom(known_atom_names()[i]),
        table.id_of(known_atom_names()[i]) == table@[i],
{
    lemma_atom_position_of_name(i);
}

} // verus!
