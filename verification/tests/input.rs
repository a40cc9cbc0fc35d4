use dotz::{poll_quit, InputEvent, KeyCode, KeyEvent, KeyKind, Modifiers};

fn key(ch: char, kind: KeyKind, modifiers: Modifiers) -> InputEvent {
    InputEvent::Key(KeyEvent { code: KeyCode::Char(ch), kind, modifiers })
}

#[test]
fn plain_q_quits() {
    let event = key('q', KeyKind::Press, Modifiers::none());
    assert!(event.is_quit());
    assert!(poll_quit(Some(event)));
}

#[test]
fn control_c_quits() {
    let event = key('c', KeyKind::Press, Modifiers::control());
    assert!(event.is_quit());
    assert!(poll_quit(Some(event)));
}

#[test]
fn shift_q_does_not_quit() {
    let event = key('q', KeyKind::Press, Modifiers::shift());
    assert!(!event.is_quit());
    assert!(!poll_quit(Some(event)));
}

#[test]
fn timeout_does_not_quit() {
    assert!(!poll_quit(None));
}

#[test]
fn resize_does_not_quit() {
    assert!(!InputEvent::Resize(80, 24).is_quit());
    assert!(!poll_quit(Some(InputEvent::Resize(80, 24))));
    assert!(!poll_quit(Some(InputEvent::Resize(0, 0))));
}

#[test]
fn other_events_do_not_quit() {
    assert!(!poll_quit(Some(InputEvent::Other)));
    let enter = InputEvent::Key(KeyEvent {
        code: KeyCode::Other,
        kind: KeyKind::Press,
        modifiers: Modifiers::none(),
    });
    assert!(!poll_quit(Some(enter)));
    let control_enter = InputEvent::Key(KeyEvent {
        code: KeyCode::Other,
        kind: KeyKind::Press,
        modifiers: Modifiers::control(),
    });
    assert!(!poll_quit(Some(control_enter)));
}

#[test]
fn only_presses_quit() {
    assert!(!poll_quit(Some(key('q', KeyKind::Release, Modifiers::none()))));
    assert!(!poll_quit(Some(key('q', KeyKind::Repeat, Modifiers::none()))));
    assert!(!poll_quit(Some(key('c', KeyKind::Release, Modifiers::control()))));
    assert!(!poll_quit(Some(key('c', KeyKind::Repeat, Modifiers::control()))));
}

#[test]
fn modifiers_must_match_exactly() {
    assert!(!poll_quit(Some(key('q', KeyKind::Press, Modifiers::control()))));
    assert!(!poll_quit(Some(key('c', KeyKind::Press, Modifiers::none()))));
    assert!(!poll_quit(Some(key('c', KeyKind::Press, Modifiers::shift()))));
    let control_shift = Modifiers { shift: true, ..Modifiers::control() };
    assert!(!poll_quit(Some(key('c', KeyKind::Press, control_shift))));
    let control_alt = Modifiers { alt: true, ..Modifiers::control() };
    assert!(!poll_quit(Some(key('c', KeyKind::Press, control_alt))));
    for held in [
        Modifiers { alt: true, ..Modifiers::none() },
        Modifiers { logo: true, ..Modifiers::none() },
        Modifiers { hyper: true, ..Modifiers::none() },
        Modifiers { meta: true, ..Modifiers::none() },
    ] {
        assert!(!poll_quit(Some(key('q', KeyKind::Press, held))));
        let with_control = Modifiers { control: true, ..held };
        assert!(!poll_quit(Some(key('c', KeyKind::Press, with_control))));
    }
}

#[test]
fn other_characters_do_not_quit() {
    for ch in ['Q', 'C', 'x', ' ', '\u{3}', 'w'] {
        assert!(!poll_quit(Some(key(ch, KeyKind::Press, Modifiers::none()))));
        assert!(!poll_quit(Some(key(ch, KeyKind::Press, Modifiers::control()))));
    }
}

#[test]
fn modifier_constructors() {
    let none = Modifiers::none();
    assert!(!none.shift && !none.control && !none.alt && !none.logo && !none.hyper && !none.meta);
    assert_eq!(Modifiers::control(), Modifiers { control: true, ..none });
    assert_eq!(Modifiers::shift(), Modifiers { shift: true, ..none });
}
