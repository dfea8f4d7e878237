use overlay_core::input::{
    should_pass_through_key, submission_message, InputRouter, KeyDisposition, KeyEvent,
    KEY_DELETE, KEY_DOWN_ARROW, KEY_ESCAPE, KEY_LEFT_ARROW, KEY_RETURN, KEY_RIGHT_ARROW, KEY_TAB,
    KEY_UP_ARROW, MODIFIER_COMMAND, MODIFIER_CONTROL, MODIFIER_OPTION,
};

fn char_key(c: char) -> KeyEvent {
    KeyEvent { code: 0, modifiers: 0, text: vec![c] }
}

fn plain_key(code: u16) -> KeyEvent {
    KeyEvent { code, modifiers: 0, text: Vec::new() }
}

fn buffer_string(router: &InputRouter) -> String {
    router.buffer().iter().collect()
}

fn type_str(router: &mut InputRouter, s: &str) {
    for c in s.chars() {
        let out = router.on_key(&char_key(c));
        assert_eq!(out.disposition, KeyDisposition::Swallow);
    }
}

#[test]
fn navigation_keys_always_pass_through() {
    for code in [
        KEY_UP_ARROW, KEY_DOWN_ARROW, KEY_LEFT_ARROW, KEY_RIGHT_ARROW, KEY_ESCAPE, KEY_TAB,
    ] {
        assert!(should_pass_through_key(code, 0));
    }
}

#[test]
fn reserved_chords_always_pass_through() {
    for flags in [MODIFIER_COMMAND, MODIFIER_OPTION, MODIFIER_CONTROL] {
        assert!(should_pass_through_key(0, flags));
        assert!(should_pass_through_key(KEY_DELETE, flags));
        assert!(should_pass_through_key(KEY_RETURN, flags));
    }
}

#[test]
fn plain_character_keys_do_not_pass_through() {
    assert!(!should_pass_through_key(0, 0));
    assert!(!should_pass_through_key(KEY_DELETE, 0));
    assert!(!should_pass_through_key(KEY_RETURN, 0));
    // An unrelated modifier bit (shift and the like) reserves nothing.
    assert!(!should_pass_through_key(0, 1 << 17));
}

#[test]
fn click_inside_activates_click_outside_deactivates() {
    let mut router = InputRouter::new();
    assert!(!router.is_active());
    router.on_click(true);
    assert!(router.is_active());
    router.on_click(false);
    assert!(!router.is_active());
}

#[test]
fn no_key_mutates_the_buffer_while_inactive() {
    let mut router = InputRouter::new();
    router.on_click(true);
    type_str(&mut router, "abc");
    router.on_click(false);
    for event in [
        char_key('x'),
        plain_key(KEY_DELETE),
        plain_key(KEY_RETURN),
        plain_key(KEY_UP_ARROW),
    ] {
        let out = router.on_key(&event);
        assert_eq!(out.disposition, KeyDisposition::Forward);
        assert!(out.submission.is_none());
        assert_eq!(buffer_string(&router), "abc");
    }
    assert!(!router.is_active());
}

#[test]
fn character_keys_append_their_text_and_are_swallowed() {
    let mut router = InputRouter::new();
    router.on_click(true);
    type_str(&mut router, "hi");
    assert_eq!(buffer_string(&router), "hi");
}

#[test]
fn delete_removes_the_last_character() {
    let mut router = InputRouter::new();
    router.on_click(true);
    type_str(&mut router, "abc");
    let out = router.on_key(&plain_key(KEY_DELETE));
    assert_eq!(out.disposition, KeyDisposition::Swallow);
    assert!(out.submission.is_none());
    assert_eq!(buffer_string(&router), "ab");
}

#[test]
fn delete_on_an_empty_buffer_never_underflows() {
    let mut router = InputRouter::new();
    router.on_click(true);
    let out = router.on_key(&plain_key(KEY_DELETE));
    assert_eq!(out.disposition, KeyDisposition::Swallow);
    assert_eq!(buffer_string(&router), "");
}

#[test]
fn submit_fires_exactly_once_with_prior_contents() {
    let mut router = InputRouter::new();
    router.on_click(true);
    type_str(&mut router, "hello");
    let out = router.on_key(&plain_key(KEY_RETURN));
    assert_eq!(out.disposition, KeyDisposition::Swallow);
    let submitted = out.submission.expect("one submission is owed");
    assert_eq!(submitted.iter().collect::<String>(), "hello");
    let message: String = submission_message(&submitted).iter().collect();
    assert_eq!(message, "submitted: hello");
    assert_eq!(buffer_string(&router), "");
    // The next return submits the now-empty buffer, not "hello" again.
    let again = router.on_key(&plain_key(KEY_RETURN));
    assert_eq!(
        again.submission.expect("still one per return").iter().collect::<String>(),
        ""
    );
}

#[test]
fn command_chord_while_active_is_forwarded_unchanged() {
    let mut router = InputRouter::new();
    router.on_click(true);
    type_str(&mut router, "abc");
    let chord = KeyEvent { code: 4, modifiers: MODIFIER_COMMAND, text: vec!['v'] };
    let out = router.on_key(&chord);
    assert_eq!(out.disposition, KeyDisposition::Forward);
    assert!(out.submission.is_none());
    assert_eq!(buffer_string(&router), "abc");
    assert!(router.is_active());
}

#[test]
fn navigation_keys_while_active_are_forwarded_unchanged() {
    let mut router = InputRouter::new();
    router.on_click(true);
    type_str(&mut router, "abc");
    for code in [KEY_UP_ARROW, KEY_DOWN_ARROW, KEY_ESCAPE, KEY_TAB] {
        let out = router.on_key(&plain_key(code));
        assert_eq!(out.disposition, KeyDisposition::Forward);
        assert_eq!(buffer_string(&router), "abc");
    }
}

#[test]
fn both_interception_paths_share_one_router() {
    // The system-wide hook and the process-local hook drive the same router,
    // so the same event sequence gives the same buffer whichever hook saw it.
    let mut seen_by_global = InputRouter::new();
    let mut seen_by_local = InputRouter::new();
    for router in [&mut seen_by_global, &mut seen_by_local] {
        router.on_click(true);
        type_str(router, "ab");
        router.on_key(&plain_key(KEY_DELETE));
    }
    assert_eq!(buffer_string(&seen_by_global), buffer_string(&seen_by_local));
    assert_eq!(buffer_string(&seen_by_global), "a");
}
