use systray_doom::input::KeyEvent;
use systray_doom::queue::KeyQueue;

fn ev(key: u8, pressed: bool) -> KeyEvent {
    KeyEvent { key, pressed }
}

#[test]
fn pop_on_empty_yields_no_event() {
    let mut q = KeyQueue::new();
    assert_eq!(q.len(), 0);
    assert_eq!(q.pop(), None);
    assert_eq!(q.pop(), None);
}

#[test]
fn events_come_back_in_push_order() {
    let mut q = KeyQueue::new();
    q.push(ev(1, true));
    q.push(ev(2, true));
    q.push(ev(1, false));
    assert_eq!(q.pop(), Some(ev(1, true)));
    assert_eq!(q.pop(), Some(ev(2, true)));
    assert_eq!(q.pop(), Some(ev(1, false)));
    assert_eq!(q.pop(), None);
}

#[test]
fn fifo_holds_under_interleaving() {
    let mut q = KeyQueue::new();
    q.push(ev(10, true));
    q.push(ev(11, true));
    assert_eq!(q.pop(), Some(ev(10, true)));
    q.push(ev(12, false));
    q.push(ev(13, true));
    assert_eq!(q.pop(), Some(ev(11, true)));
    assert_eq!(q.pop(), Some(ev(12, false)));
    q.push(ev(14, false));
    assert_eq!(q.pop(), Some(ev(13, true)));
    assert_eq!(q.pop(), Some(ev(14, false)));
    assert_eq!(q.pop(), None);
    q.push(ev(15, true));
    assert_eq!(q.pop(), Some(ev(15, true)));
}

#[test]
fn len_tracks_pending_events() {
    let mut q = KeyQueue::new();
    q.push(ev(1, true));
    q.push(ev(2, false));
    assert_eq!(q.len(), 2);
    q.pop();
    assert_eq!(q.len(), 1);
    q.pop();
    assert_eq!(q.len(), 0);
}
