use std::mem::align_of;
use std::mem::size_of;

use rline::readline_state;
use rline::Action;
use rline::Gate;
use rline::Readline;

fn session(gate: &mut Gate) -> Readline {
    let (rl, _plan) = Readline::new(gate, &readline_state::zeroed()).unwrap();
    rl
}

#[test]
fn alignment() {
    assert_eq!(align_of::<readline_state>(), 8);
}

#[test]
fn snapshot_size() {
    assert_eq!(size_of::<readline_state>(), 512);
}

#[test]
fn empty_input() {
    let mut gate = Gate::new();
    let rl = session(&mut gate);

    assert!(rl.feed(&mut gate, b"").is_empty())
}

#[test]
fn empty_input_leaves_gate() {
    let mut gate = Gate::new();
    let a = session(&mut gate);
    let b = session(&mut gate);
    assert_eq!(gate.owner(), b.id());

    assert!(a.feed(&mut gate, b"").is_empty());
    assert_eq!(gate.owner(), b.id());
    assert_eq!(gate.take_line(), None);
}

#[test]
fn new_sets_up_buffers() {
    let mut gate = Gate::new();
    let template = readline_state::zeroed();
    let first = gate.owner();
    let (rl, plan) = Readline::new(&mut gate, &template).unwrap();

    assert!(rl.id() > first);
    assert_eq!(gate.owner(), rl.id());
    assert_eq!(gate.last(), rl.id());
    assert_eq!(rl.snapshot().words, template.words);
    assert_eq!(
        plan,
        vec![Action::Restore, Action::Allocate, Action::Capture, Action::Restore, Action::Capture]
    );
}

#[test]
fn identities_are_distinct() {
    let mut gate = Gate::new();
    let first = gate.owner();
    let a = session(&mut gate);
    let b = session(&mut gate);

    assert_ne!(first, 0);
    assert_ne!(a.id(), 0);
    assert_ne!(b.id(), 0);
    assert_ne!(a.id(), b.id());
    assert_ne!(a.id(), first);
    assert_ne!(b.id(), first);
    assert!(first < a.id() && a.id() < b.id());
    assert_eq!(gate.last(), b.id());
}

#[test]
fn with_id_takes_larger_identity() {
    let mut gate = Gate::new();
    let last = gate.last();
    let template = readline_state::zeroed();

    let (rl, plan) = Readline::with_id(&mut gate, last + 10, &template).unwrap();
    assert_eq!(rl.id(), last + 10);
    assert_eq!(gate.owner(), last + 10);
    assert_eq!(gate.last(), last + 10);
    assert_eq!(
        plan,
        vec![Action::Restore, Action::Allocate, Action::Capture, Action::Restore, Action::Capture]
    );
}

#[test]
fn with_id_refuses_issued_identity() {
    let mut gate = Gate::new();
    let first = gate.owner();
    let template = readline_state::zeroed();

    assert!(Readline::with_id(&mut gate, first, &template).is_none());
    assert_eq!(gate.owner(), first);
    assert_eq!(gate.last(), first);

    let (a, _plan) = Readline::with_id(&mut gate, first + 5, &template).unwrap();
    assert!(Readline::with_id(&mut gate, a.id(), &template).is_none());
    assert!(Readline::with_id(&mut gate, first + 3, &template).is_none());
    assert_eq!(gate.owner(), a.id());
    assert_eq!(gate.last(), first + 5);
}

#[test]
fn released_identity_is_not_reused() {
    let mut gate = Gate::new();
    let a = session(&mut gate);
    let _plan = a.release(&mut gate);
    let old = a.id();
    drop(a);

    let b = session(&mut gate);
    assert!(b.id() > old);
}

#[test]
fn feed_pushes_each_byte() {
    let mut gate = Gate::new();
    let rl = session(&mut gate);

    let plan = rl.feed(&mut gate, b"\x1b[A");
    assert_eq!(
        plan,
        vec![
            Action::Stuff(0x1b),
            Action::Stuff(b'['),
            Action::Stuff(b'A'),
            Action::ReadKey,
            Action::Capture,
        ]
    );
}

#[test]
fn cursor_keys_in_order() {
    let mut gate = Gate::new();
    let rl = session(&mut gate);

    for key in [b"a", b"b", b"c"] {
        let plan = rl.feed(&mut gate, key);
        assert_eq!(plan, vec![Action::Stuff(key[0]), Action::ReadKey, Action::Capture]);
    }
    let plan = rl.peek(&mut gate);
    assert_eq!(plan, vec![Action::Inspect, Action::Capture]);
}

#[test]
fn switching_sessions_restores() {
    let mut gate = Gate::new();
    let a = session(&mut gate);
    let b = session(&mut gate);

    assert_eq!(
        a.feed(&mut gate, b"x"),
        vec![Action::Restore, Action::Stuff(b'x'), Action::ReadKey, Action::Capture]
    );
    assert_eq!(gate.owner(), a.id());
    assert_eq!(a.feed(&mut gate, b"y"), vec![Action::Stuff(b'y'), Action::ReadKey, Action::Capture]);
    assert_eq!(b.peek(&mut gate), vec![Action::Restore, Action::Inspect, Action::Capture]);
    assert_eq!(gate.owner(), b.id());
    assert_eq!(a.peek(&mut gate), vec![Action::Restore, Action::Inspect, Action::Capture]);
}

#[test]
fn reset_replaces_then_moves_cursor() {
    let mut gate = Gate::new();
    let rl = session(&mut gate);

    let plan = rl.reset(&mut gate, b"abc".to_vec(), 1, true);
    assert_eq!(
        plan,
        vec![Action::Replace(b"abc".to_vec(), true), Action::MoveCursor(1), Action::Capture]
    );
    let plan = rl.feed(&mut gate, b"x");
    assert_eq!(plan, vec![Action::Stuff(b'x'), Action::ReadKey, Action::Capture]);
}

#[test]
fn try_reset_refuses_cursor_past_end() {
    let mut gate = Gate::new();
    let a = session(&mut gate);
    let b = session(&mut gate);

    assert_eq!(a.try_reset(&mut gate, b"abc".to_vec(), 4, true), None);
    assert_eq!(gate.owner(), b.id());

    assert_eq!(
        a.try_reset(&mut gate, b"abc".to_vec(), 3, true),
        Some(vec![
            Action::Restore,
            Action::Replace(b"abc".to_vec(), true),
            Action::MoveCursor(3),
            Action::Capture,
        ])
    );
    assert_eq!(gate.owner(), a.id());
}

#[test]
fn try_reset_empty_line() {
    let mut gate = Gate::new();
    let a = session(&mut gate);

    assert_eq!(a.try_reset(&mut gate, Vec::new(), 1, false), None);
    assert_eq!(
        a.try_reset(&mut gate, Vec::new(), 0, false),
        Some(vec![Action::Replace(Vec::new(), false), Action::MoveCursor(0), Action::Capture])
    );
}

#[test]
fn reset_at_end_of_line() {
    let mut gate = Gate::new();
    let a = session(&mut gate);
    let b = session(&mut gate);

    let plan = a.reset(&mut gate, b"123".to_vec(), 3, false);
    assert_eq!(
        plan,
        vec![
            Action::Restore,
            Action::Replace(b"123".to_vec(), false),
            Action::MoveCursor(3),
            Action::Capture,
        ]
    );
    assert_eq!(gate.owner(), a.id());
    assert_ne!(gate.owner(), b.id());
}

#[test]
fn release_frees_with_session_installed() {
    let mut gate = Gate::new();
    let a = session(&mut gate);
    let b = session(&mut gate);

    assert_eq!(a.release(&mut gate), vec![Action::Restore, Action::Release, Action::Capture]);
    assert_eq!(b.release(&mut gate), vec![Action::Restore, Action::Release, Action::Capture]);
    assert_eq!(gate.owner(), b.id());
}

#[test]
fn capture_stores_live_state() {
    let mut gate = Gate::new();
    let mut rl = session(&mut gate);
    let id = rl.id();
    let mut live = readline_state::zeroed();
    live.words[0] = 7;
    live.words[63] = 42;

    rl.capture(&live);
    assert_eq!(rl.snapshot().words, live.words);
    assert_eq!(rl.id(), id);
}

#[test]
fn load_copies_state() {
    let mut live = readline_state::zeroed();
    live.words[5] = 99;
    let mut snap = readline_state::zeroed();
    assert_eq!(snap.words, [0u64; 64]);

    snap.load(&live);
    assert_eq!(snap.words, live.words);
}

#[test]
fn readline_debug_repr() {
    let mut gate = Gate::new();
    let rl = session(&mut gate);
    assert_ne!(format!("{rl:?}"), "");
}
