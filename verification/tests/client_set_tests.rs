use penrose::client_set::{ClientSet, Stack};
use penrose::extensions::hooks::mejo13::{ClientPositioning, EventHook, ManageHook};
use penrose::xconnection::{MockXConn, XEvent};

fn stack(clients: &[u32], focus: usize) -> Stack {
    Stack::new(clients.to_vec(), focus).unwrap()
}

fn parts(s: &Stack) -> (Vec<u32>, usize) {
    (s.clients().clone(), s.focus_index())
}

#[test]
fn new_rejects_a_focus_outside_the_stack() {
    assert!(Stack::new(vec![1, 2, 3], 3).is_none());
    assert!(Stack::new(vec![], 0).is_none());
    let s = stack(&[1, 2, 3], 2);
    assert_eq!(parts(&s), (vec![1, 2, 3], 2));
    assert_eq!(s.focused(), 3);
    assert_eq!(s.head(), 1);
}

#[test]
fn swap_up_moves_the_focused_client_up() {
    let mut s = stack(&[1, 2, 3, 4], 2);
    s.swap_up();
    assert_eq!(parts(&s), (vec![1, 3, 2, 4], 1));
    assert_eq!(s.focused(), 3);
}

#[test]
fn swap_up_wraps_the_top_client_to_the_bottom() {
    let mut s = stack(&[1, 2, 3, 4], 0);
    s.swap_up();
    assert_eq!(parts(&s), (vec![2, 3, 4, 1], 3));
    assert_eq!(s.focused(), 1);
}

#[test]
fn swap_down_moves_the_focused_client_down() {
    let mut s = stack(&[1, 2, 3, 4], 1);
    s.swap_down();
    assert_eq!(parts(&s), (vec![1, 3, 2, 4], 2));
    assert_eq!(s.focused(), 2);
}

#[test]
fn swap_down_wraps_the_bottom_client_to_the_top() {
    let mut s = stack(&[1, 2, 3, 4], 3);
    s.swap_down();
    assert_eq!(parts(&s), (vec![4, 1, 2, 3], 0));
    assert_eq!(s.focused(), 4);
}

#[test]
fn swaps_of_a_single_client_change_nothing() {
    let mut s = stack(&[9], 0);
    s.swap_up();
    assert_eq!(parts(&s), (vec![9], 0));
    s.swap_down();
    assert_eq!(parts(&s), (vec![9], 0));
}

#[test]
fn swap_down_undoes_swap_up() {
    for focus in 0..5 {
        let mut s = stack(&[1, 2, 3, 4, 5], focus);
        s.swap_up();
        s.swap_down();
        assert_eq!(parts(&s), (vec![1, 2, 3, 4, 5], focus));
        s.swap_down();
        s.swap_up();
        assert_eq!(parts(&s), (vec![1, 2, 3, 4, 5], focus));
    }
}

#[test]
fn stack_contains() {
    let s = stack(&[5, 6, 7], 0);
    assert!(s.contains(6));
    assert!(!s.contains(8));
}

fn client_set(focus: usize) -> ClientSet {
    ClientSet {
        current: Some(stack(&[1, 2, 3], focus)),
        other_clients: vec![10, 11],
        floating: vec![3, 11],
    }
}

fn current(cs: &ClientSet) -> Option<(Vec<u32>, usize)> {
    cs.current.as_ref().map(parts)
}

#[test]
fn client_set_queries() {
    let cs = client_set(1);
    assert!(cs.contains(2));
    assert!(cs.contains(10));
    assert!(!cs.contains(12));
    assert!(cs.is_floating(11));
    assert!(!cs.is_floating(1));
    assert_eq!(cs.current_stack().map(|s| s.focused()), Some(2));
    let empty = ClientSet { current: None, other_clients: vec![4], floating: vec![] };
    assert!(empty.current_stack().is_none());
    assert!(empty.contains(4));
}

#[test]
fn client_set_swaps_act_on_the_current_stack() {
    let mut cs = client_set(1);
    cs.swap_up();
    assert_eq!(current(&cs), Some((vec![2, 1, 3], 0)));
    cs.swap_down();
    cs.swap_down();
    assert_eq!(current(&cs), Some((vec![1, 3, 2], 2)));
    assert_eq!(cs.other_clients, vec![10, 11]);
    assert_eq!(cs.floating, vec![3, 11]);
    let mut empty = ClientSet { current: None, other_clients: vec![], floating: vec![] };
    empty.swap_up();
    empty.swap_down();
    assert!(empty.current.is_none());
}

#[test]
fn unmapping_a_tiled_client_below_the_top_swaps_up() {
    let mut cs = client_set(2);
    let mut hook = ClientPositioning;
    assert_eq!(hook.on_event(&XEvent::Unmap { window: 2 }, &mut cs), Ok(true));
    assert_eq!(current(&cs), Some((vec![1, 3, 2], 1)));
    // a client on another workspace counts as known
    let mut cs = client_set(2);
    assert_eq!(hook.on_event(&XEvent::Unmap { window: 10 }, &mut cs), Ok(true));
    assert_eq!(current(&cs), Some((vec![1, 3, 2], 1)));
}

#[test]
fn event_hook_leaves_other_cases_alone() {
    let mut hook = ClientPositioning;
    // the top client
    let mut cs = client_set(2);
    assert_eq!(hook.on_event(&XEvent::Unmap { window: 1 }, &mut cs), Ok(true));
    assert_eq!(current(&cs), Some((vec![1, 2, 3], 2)));
    // a floating client
    assert_eq!(hook.on_event(&XEvent::Unmap { window: 11 }, &mut cs), Ok(true));
    assert_eq!(current(&cs), Some((vec![1, 2, 3], 2)));
    // an unknown client
    assert_eq!(hook.on_event(&XEvent::Unmap { window: 99 }, &mut cs), Ok(true));
    assert_eq!(current(&cs), Some((vec![1, 2, 3], 2)));
    // another event
    assert_eq!(hook.on_event(&XEvent::Destroy { window: 2 }, &mut cs), Ok(true));
    assert_eq!(current(&cs), Some((vec![1, 2, 3], 2)));
    // an empty workspace
    let mut empty = ClientSet { current: None, other_clients: vec![2], floating: vec![] };
    assert_eq!(hook.on_event(&XEvent::Unmap { window: 2 }, &mut empty), Ok(true));
    assert!(empty.current.is_none());
}

#[test]
fn managing_a_tiled_client_swaps_down() {
    let mut hook = ClientPositioning;
    let mut cs = client_set(0);
    assert_eq!(hook.on_manage(2, &mut cs), Ok(()));
    assert_eq!(current(&cs), Some((vec![2, 1, 3], 1)));
    // floating clients stay where they are
    let mut cs = client_set(0);
    assert_eq!(hook.on_manage(3, &mut cs), Ok(()));
    assert_eq!(current(&cs), Some((vec![1, 2, 3], 0)));
}

#[test]
fn hooks_run_through_their_traits() {
    let conn = MockXConn::new(vec![]);
    let mut hook = ClientPositioning;
    let mut cs = client_set(2);
    let r = EventHook::<MockXConn>::call(&mut hook, &XEvent::Unmap { window: 2 }, &mut cs, &conn);
    assert_eq!(r, Ok(true));
    assert_eq!(current(&cs), Some((vec![1, 3, 2], 1)));
    let r = ManageHook::<MockXConn>::call(&mut hook, 2, &mut cs, &conn);
    assert_eq!(r, Ok(()));
    assert_eq!(current(&cs), Some((vec![1, 2, 3], 2)));
}
