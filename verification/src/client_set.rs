//! The clients that the window manager knows, as hooks see and rearrange them.
use crate::data_types::WinId;
use vstd::prelude::*;

verus! {

broadcast use {vstd::seq_lib::group_to_multiset_ensures, vstd::multiset::group_multiset_axioms};

/// The clients of a workspace, top of the stack first, with one of them focused.
pub struct Stack {
    clients: Vec<WinId>,
    focus: usize,
}

/// The abstract value of a stack: its clients, top first, and the position of the focus.
pub type StackView = (Seq<WinId>, int);

/// A stack value is well formed when it holds the client that it focuses.
pub open spec fn stack_view_wf(v: StackView) -> bool {
    0 <= v.1 < v.0.len()
}

/// Swapping the focused client with the one above it. The top client wraps around:
/// it goes to the bottom, below all others, and stays focused.
pub open spec fn swap_up_view(v: StackView) -> StackView {
    let (s, f) = v;
    if f > 0 {
        (s.update(f - 1, s[f]).update(f, s[f - 1]), f - 1)
    } else {
        (s.drop_first().push(s[0]), s.len() - 1)
    }
}

/// Swapping the focused client with the one below it. The bottom client wraps around:
/// it goes to the top, above all others, and stays focused.
pub open spec fn swap_down_view(v: StackView) -> StackView {
    let (s, f) = v;
    if f + 1 < s.len() {
        (s.update(f + 1, s[f]).update(f, s[f + 1]), f + 1)
    } else {
        (seq![s.last()] + s.drop_last(), 0)
    }
}

impl View for Stack {
    type V = StackView;

    closed spec fn view(&self) -> StackView {
        (self.clients@, self.focus as int)
    }
}

impl Stack {
    /// Every stack that the functions here hand out is well formed.
    pub open spec fn wf(&self) -> bool {
        stack_view_wf(self@)
    }

    /// The stack of `clients`, top first, focused on the one at position `focus`;
    /// `None` when there is no client at that position.
    pub fn new(clients: Vec<WinId>, focus: usize) -> (r: Option<Stack>)
        ensures
            r is Some <==> focus < clients@.len(),
            r matches Some(s) ==> s.wf() && s@ == (clients@, focus as int),
    {
        if focus < clients.len() {
            Some(Stack { clients, focus })
        } else {
            None
        }
    }

    /// The clients of the stack, top first.
    pub fn clients(&self) -> (r: &Vec<WinId>)
        ensures
            r@ == self@.0,
    {
        &self.clients
    }

    /// The position of the focused client, counted from the top.
    pub fn focus_index(&self) -> (r: usize)
        ensures
            r == self@.1,
    {
        self.focus
    }

    /// The focused client.
    pub fn focused(&self) -> (r: WinId)
        requires
            self.wf(),
        ensures
            r == self@.0[self@.1],
    {
        self.clients[self.focus]
    }

    /// The client at the top of the stack.
    pub fn head(&self) -> (r: WinId)
        requires
            self.wf(),
        ensures
            r == self@.0[0],
    {
        self.clients[0]
    }

    /// Whether `client` is in the stack.
    pub fn contains(&self, client: WinId) -> (r: bool)
        ensures
            r == self@.0.contains(client),
    {
        let n = self.clients.len();
        for i in 0..n
            invariant
                n == self.clients@.len(),
                forall|j: int| 0 <= j < i ==> self.clients@[j] != client,
        {
            if self.clients[i] == client {
                return true;
            }
        }
        false
    }

    /// Swap the focused client with the one above it, wrapping from top to bottom.
    /// The focused client keeps the focus.
    pub fn swap_up(&mut self)
        requires
            old(self).wf(),
        ensures
            final(self).wf(),
            final(self)@ == swap_up_view(old(self)@),
            final(self)@.0.len() == old(self)@.0.len(),
            old(self)@.1 > 0 ==> {
                &&& final(self)@.1 == old(self)@.1 - 1
                &&& final(self)@.0[old(self)@.1 - 1] == old(self)@.0[old(self)@.1]
                &&& final(self)@.0[old(self)@.1] == old(self)@.0[old(self)@.1 - 1]
                &&& forall|i: int|
                    0 <= i < old(self)@.0.len() && i != old(self)@.1 - 1 && i != old(self)@.1
                        ==> #[trigger] final(self)@.0[i] == old(self)@.0[i]
            },
            old(self)@.1 == 0 ==> {
                &&& final(self)@.1 == old(self)@.0.len() - 1
                &&& final(self)@.0[old(self)@.0.len() - 1] == old(self)@.0[0]
                &&& forall|i: int|
                    0 <= i < old(self)@.0.len() - 1 ==> #[trigger] final(self)@.0[i] == old(
                        self,
                    )@.0[i + 1]
            },
    {
        proof {
            lemma_swap_up_moves_focused_client(old(self)@);
        }
        let f = self.focus;
        if f > 0 {
            let above = self.clients[f - 1];
            let focused = self.clients[f];
            self.clients.set(f - 1, focused);
            self.clients.set(f, above);
            self.focus = f - 1;
        } else {
            let top = self.clients.remove(0);
            self.clients.push(top);
            self.focus = self.clients.len() - 1;
            assert(self.clients@ == old(self)@.0.drop_first().push(old(self)@.0[0]));
        }
    }

    /// Swap the focused client with the one below it, wrapping from bottom to top.
    /// The focused client keeps the focus.
    pub fn swap_down(&mut self)
        requires
            old(self).wf(),
        ensures
            final(self).wf(),
            final(self)@ == swap_down_view(old(self)@),
            final(self)@.0.len() == old(self)@.0.len(),
            old(self)@.1 + 1 < old(self)@.0.len() ==> {
                &&& final(self)@.1 == old(self)@.1 + 1
                &&& final(self)@.0[old(self)@.1 + 1] == old(self)@.0[old(self)@.1]
                &&& final(self)@.0[old(self)@.1] == old(self)@.0[old(self)@.1 + 1]
                &&& forall|i: int|
                    0 <= i < old(self)@.0.len() && i != old(self)@.1 + 1 && i != old(self)@.1
                        ==> #[trigger] final(self)@.0[i] == old(self)@.0[i]
            },
            old(self)@.1 + 1 == old(self)@.0.len() ==> {
                &&& final(self)@.1 == 0
                &&& final(self)@.0[0] == old(self)@.0[old(self)@.0.len() - 1]
                &&& forall|i: int|
                    1 <= i < old(self)@.0.len() ==> #[trigger] final(self)@.0[i] == old(
                        self,
                    )@.0[i - 1]
            },
    {
        proof {
            lemma_swap_down_moves_focused_client(old(self)@);
        }
        let f = self.focus;
        if f < self.clients.len() - 1 {
            let below = self.clients[f + 1];
            let focused = self.clients[f];
            self.clients.set(f + 1, focused);
            self.clients.set(f, below);
            self.focus = f + 1;
        } else {
            let bottom = self.clients.pop().unwrap();
            self.clients.insert(0, bottom);
            self.focus = 0;
            assert(self.clients@ == seq![old(self)@.0.last()] + old(self)@.0.drop_last());
        }
    }
}

/// Two sequences hold the same clients when removing one entry from each, the same
/// client, leaves the same sequence.
proof fn lemma_same_multiset_after_removal(a: Seq<WinId>, i: int, b: Seq<WinId>, j: int)
    requires
        0 <= i < a.len(),
        0 <= j < b.len(),
        a[i] == b[j],
        a.remove(i) == b.remove(j),
    ensures
        a.to_multiset() == b.to_multiset(),
{
    let x = a[i];
    assert(a.to_multiset().count(x) > 0) by {
        assert(a.contains(x));
    }
    assert(b.to_multiset().count(x) > 0) by {
        assert(b.contains(x));
    }
    assert(a.to_multiset() =~= a.remove(i).to_multiset().insert(x));
    assert(b.to_multiset() =~= b.remove(j).to_multiset().insert(x));
}

/// Swapping up exchanges the focused client with the one just above it, and the focus
/// follows it one place up; at the top, the focused client instead moves to the bottom,
/// every other client moving one place up, and the focus follows it there. With two or
/// more clients the focus always moves.
pub proof fn lemma_swap_up_moves_focused_client(v: StackView)
    requires
        stack_view_wf(v),
    ensures
        swap_up_view(v).0.len() == v.0.len(),
        v.1 > 0 ==> {
            &&& swap_up_view(v).1 == v.1 - 1
            &&& swap_up_view(v).0[v.1 - 1] == v.0[v.1]
            &&& swap_up_view(v).0[v.1] == v.0[v.1 - 1]
            &&& forall|i: int|
                0 <= i < v.0.len() && i != v.1 - 1 && i != v.1 ==> #[trigger] swap_up_view(v).0[i]
                    == v.0[i]
        },
        v.1 == 0 ==> {
            &&& swap_up_view(v).1 == v.0.len() - 1
            &&& swap_up_view(v).0[v.0.len() - 1] == v.0[0]
            &&& forall|i: int| 0 <= i < v.0.len() - 1 ==> #[trigger] swap_up_view(v).0[i] == v.0[i + 1]
        },
        v.0.len() >= 2 ==> swap_up_view(v).1 != v.1,
{
}

/// Swapping down exchanges the focused client with the one just below it, and the focus
/// follows it one place down; at the bottom, the focused client instead moves to the top,
/// every other client moving one place down, and the focus follows it there. With two or
/// more clients the focus always moves.
pub proof fn lemma_swap_down_moves_focused_client(v: StackView)
    requires
        stack_view_wf(v),
    ensures
        swap_down_view(v).0.len() == v.0.len(),
        v.1 + 1 < v.0.len() ==> {
            &&& swap_down_view(v).1 == v.1 + 1
            &&& swap_down_view(v).0[v.1 + 1] == v.0[v.1]
            &&& swap_down_view(v).0[v.1] == v.0[v.1 + 1]
            &&& forall|i: int|
                0 <= i < v.0.len() && i != v.1 + 1 && i != v.1 ==> #[trigger] swap_down_view(v).0[i]
                    == v.0[i]
        },
        v.1 + 1 == v.0.len() ==> {
            &&& swap_down_view(v).1 == 0
            &&& swap_down_view(v).0[0] == v.0[v.0.len() - 1]
            &&& forall|i: int| 1 <= i < v.0.len() ==> #[trigger] swap_down_view(v).0[i] == v.0[i - 1]
        },
        v.0.len() >= 2 ==> swap_down_view(v).1 != v.1,
{
}

/// Swapping the focus down undoes swapping it up, and swapping it up undoes swapping it
/// down: on every stack, the two operations are inverse to each other.
pub proof fn lemma_swap_up_down_inverse(v: StackView)
    requires
        stack_view_wf(v),
    ensures
        stack_view_wf(swap_up_view(v)),
        stack_view_wf(swap_down_view(v)),
        swap_down_view(swap_up_view(v)) == v,
        swap_up_view(swap_down_view(v)) == v,
{
    let s = v.0;
    assert(swap_down_view(swap_up_view(v)).0 =~= s);
    assert(swap_up_view(swap_down_view(v)).0 =~= s);
}

/// Swapping the focus up or down keeps the clients of the stack (only their order
/// changes), and the client that had the focus keeps it.
pub proof fn lemma_swaps_keep_clients_and_focus(v: StackView)
    requires
        stack_view_wf(v),
    ensures
        swap_up_view(v).0.len() == v.0.len(),
        swap_down_view(v).0.len() == v.0.len(),
        swap_up_view(v).0.to_multiset() == v.0.to_multiset(),
        swap_down_view(v).0.to_multiset() == v.0.to_multiset(),
        swap_up_view(v).0[swap_up_view(v).1] == v.0[v.1],
        swap_down_view(v).0[swap_down_view(v).1] == v.0[v.1],
{
    let (s, f) = v;
    let (u, uf) = swap_up_view(v);
    if f > 0 {
        assert(u.remove(f - 1) =~= s.remove(f));
        lemma_same_multiset_after_removal(u, f - 1, s, f);
    } else {
        assert(u.remove(u.len() - 1) =~= s.remove(0));
        lemma_same_multiset_after_removal(u, u.len() - 1, s, 0);
    }
    let (d, df) = swap_down_view(v);
    if f + 1 < s.len() {
        assert(d.remove(f + 1) =~= s.remove(f));
        lemma_same_multiset_after_removal(d, f + 1, s, f);
    } else {
        assert(d.remove(0) =~= s.remove(s.len() - 1));
        lemma_same_multiset_after_removal(d, 0, s, s.len() - 1);
    }
}

/// The clients that the window manager knows: the stack of the focused workspace, the
/// clients on all other workspaces, and the clients that float.
pub struct ClientSet {
    /// The stack of the focused workspace; `None` when that workspace is empty.
    pub current: Option<Stack>,
    /// The clients on every other workspace.
    pub other_clients: Vec<WinId>,
    /// The clients that float above the tiled layout.
    pub floating: Vec<WinId>,
}

/// The clients that a client set knows, as a predicate.
pub open spec fn client_set_contains(cs: ClientSet, client: WinId) -> bool {
    (cs.current matches Some(s) && s@.0.contains(client)) || cs.other_clients@.contains(client)
}

impl ClientSet {
    /// A client set is well formed when its current stack is.
    pub open spec fn wf(&self) -> bool {
        self.current matches Some(s) ==> s.wf()
    }

    /// The stack of the focused workspace, if it holds any client.
    pub fn current_stack(&self) -> (r: Option<&Stack>)
        ensures
            r == match self.current {
                Some(s) => Some(&s),
                None => None::<&Stack>,
            },
    {
        match &self.current {
            Some(s) => Some(s),
            None => None,
        }
    }

    /// Whether the window manager knows `client`, on any workspace.
    pub fn contains(&self, client: WinId) -> (r: bool)
        ensures
            r == client_set_contains(*self, client),
            r == ((self.current is Some && self.current->0@.0.contains(client))
                || self.other_clients@.contains(client)),
    {
        let in_current = match &self.current {
            Some(s) => s.contains(client),
            None => false,
        };
        if in_current {
            return true;
        }
        let n = self.other_clients.len();
        for i in 0..n
            invariant
                n == self.other_clients@.len(),
                forall|j: int| 0 <= j < i ==> self.other_clients@[j] != client,
        {
            if self.other_clients[i] == client {
                return true;
            }
        }
        false
    }

    /// Whether `client` floats.
    pub fn is_floating(&self, client: WinId) -> (r: bool)
        ensures
            r == self.floating@.contains(client),
    {
        let n = self.floating.len();
        for i in 0..n
            invariant
                n == self.floating@.len(),
                forall|j: int| 0 <= j < i ==> self.floating@[j] != client,
        {
            if self.floating[i] == client {
                return true;
            }
        }
        false
    }

    /// Swap the focused client of the current workspace with the one above it (see
    /// [`Stack::swap_up`]); nothing changes when the workspace is empty.
    pub fn swap_up(&mut self)
        requires
            old(self).wf(),
        ensures
            final(self).wf(),
            final(self).other_clients == old(self).other_clients,
            final(self).floating == old(self).floating,
            match old(self).current {
                Some(s) => final(self).current matches Some(t) && t@ == swap_up_view(s@),
                None => final(self).current is None,
            },
    {
        match &mut self.current {
            Some(s) => s.swap_up(),
            None => {},
        }
    }

    /// Swap the focused client of the current workspace with the one below it (see
    /// [`Stack::swap_down`]); nothing changes when the workspace is empty.
    pub fn swap_down(&mut self)
        requires
            old(self).wf(),
        ensures
            final(self).wf(),
            final(self).other_clients == old(self).other_clients,
            final(self).floating == old(self).floating,
            match old(self).current {
                Some(s) => final(self).current matches Some(t) && t@ == swap_down_view(s@),
                None => final(self).current is None,
            },
    {
        match &mut self.current {
            Some(s) => s.swap_down(),
            None => {},
        }
    }
}

} // verus!
