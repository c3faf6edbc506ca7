use whisperme::keyboard::{
    build_keymap, configured_layout, detect_keyboard_layout, key_char, layout_step, paste_steps,
    ydotool_socket_in, InputEvent, KeyStep, Keymap, ScannedKey, KEY_ENTER, KEY_LEFTCTRL,
    KEY_LEFTSHIFT, KEY_SPACE, KEY_TAB, KEY_V, LayoutSource, LayoutStep,
};
use whisperme::layout_query::{layout_from_localectl, layout_from_setxkbmap};

#[test]
fn test_detect_layout() {
    let layout = detect_keyboard_layout(None, None, None);
    println!("Detected layout: {}", layout);
    assert!(!layout.is_empty());
}

#[test]
fn detect_layout_prefers_sources_in_order() {
    let s = |x: &str| Some(x.to_string());
    assert_eq!(detect_keyboard_layout(s("dk"), s("de"), s("fr")), "dk");
    assert_eq!(detect_keyboard_layout(s(""), s("de"), s("fr")), "de");
    assert_eq!(detect_keyboard_layout(None, None, s("fr")), "fr");
    assert_eq!(detect_keyboard_layout(s(""), s(""), s("")), "us");
    assert_eq!(detect_keyboard_layout(None, None, None), "us");
}

#[test]
fn configured_layout_unless_auto() {
    assert_eq!(configured_layout("auto"), None);
    assert_eq!(configured_layout("de"), Some("de".to_string()));
}

#[test]
fn layout_sources_asked_one_at_a_time() {
    let s = |x: &str| Some(x.to_string());
    assert_eq!(layout_step(LayoutSource::Env, s("dk")), LayoutStep::Found("dk".to_string()));
    assert_eq!(layout_step(LayoutSource::Env, s("")), LayoutStep::Query(LayoutSource::Localectl));
    assert_eq!(layout_step(LayoutSource::Env, None), LayoutStep::Query(LayoutSource::Localectl));
    assert_eq!(layout_step(LayoutSource::Localectl, None), LayoutStep::Query(LayoutSource::Setxkbmap));
    assert_eq!(layout_step(LayoutSource::Localectl, s("de")), LayoutStep::Found("de".to_string()));
    assert_eq!(layout_step(LayoutSource::Setxkbmap, None), LayoutStep::Found("us".to_string()));
    assert_eq!(layout_step(LayoutSource::Setxkbmap, s("fr")), LayoutStep::Found("fr".to_string()));
}

#[test]
fn key_event_bytes_are_little_endian() {
    let e = InputEvent { tv_sec: 1, tv_usec: -1, type_: 0x0102, code: 0x0304, value: -2 };
    let b = e.to_bytes();
    let mut expected = Vec::new();
    expected.extend_from_slice(&1i64.to_le_bytes());
    expected.extend_from_slice(&(-1i64).to_le_bytes());
    expected.extend_from_slice(&0x0102u16.to_le_bytes());
    expected.extend_from_slice(&0x0304u16.to_le_bytes());
    expected.extend_from_slice(&(-2i32).to_le_bytes());
    assert_eq!(b.to_vec(), expected);

    let k = InputEvent::key(30, 1).to_bytes();
    assert_eq!(&k[16..18], &[1, 0]);
    assert_eq!(&k[18..20], &[30, 0]);
    assert_eq!(&k[20..24], &[1, 0, 0, 0]);
    assert_eq!(InputEvent::syn().to_bytes(), [0u8; 24]);
}

fn key(code: u16, value: i32) -> (u16, u16, i32) {
    (1, code, value)
}

fn events(steps: &[KeyStep]) -> Vec<Option<(u16, u16, i32)>> {
    steps
        .iter()
        .map(|s| match s {
            KeyStep::Send(e) => Some((e.type_, e.code, e.value)),
            KeyStep::Pause => None,
        })
        .collect()
}

#[test]
fn paste_is_ctrl_v() {
    let syn = Some((0, 0, 0));
    assert_eq!(
        events(&paste_steps()),
        vec![
            Some(key(KEY_LEFTCTRL, 1)),
            syn,
            Some(key(KEY_V, 1)),
            syn,
            None,
            Some(key(KEY_V, 0)),
            syn,
            Some(key(KEY_LEFTCTRL, 0)),
            syn,
            None
        ]
    );
}

#[test]
fn typing_uses_shift_and_skips_unknown_characters() {
    let mut m = Keymap::new();
    m.insert('a', 30, false);
    m.insert('A', 30, true);
    let syn = Some((0, 0, 0));
    let steps = m.type_text_steps("aæA");
    assert_eq!(
        events(&steps),
        vec![
            Some(key(30, 1)),
            syn,
            None,
            Some(key(30, 0)),
            syn,
            None,
            Some(key(KEY_LEFTSHIFT, 1)),
            syn,
            Some(key(30, 1)),
            syn,
            None,
            Some(key(30, 0)),
            syn,
            Some(key(KEY_LEFTSHIFT, 0)),
            syn,
            None
        ]
    );
    assert!(m.type_text_steps("").is_empty());
}

#[test]
fn keymap_first_key_wins_and_whitespace_is_fixed() {
    let scan = vec![
        ScannedKey { xkb_keycode: 38, plain: Some('a'), shifted: Some('A') },
        ScannedKey { xkb_keycode: 65, plain: Some(' '), shifted: Some(' ') },
        ScannedKey { xkb_keycode: 90, plain: Some('a'), shifted: None },
        ScannedKey { xkb_keycode: 10, plain: Some('1'), shifted: Some('!') },
        ScannedKey { xkb_keycode: 11, plain: None, shifted: Some('1') },
    ];
    let m = build_keymap(&scan);
    assert_eq!(m.get('a'), Some((30, false)));
    assert_eq!(m.get('A'), Some((30, true)));
    assert_eq!(m.get('1'), Some((2, false)));
    assert_eq!(m.get('!'), Some((2, true)));
    assert_eq!(m.get(' '), Some((KEY_SPACE, false)));
    assert_eq!(m.get('\n'), Some((KEY_ENTER, false)));
    assert_eq!(m.get('\t'), Some((KEY_TAB, false)));
    assert_eq!(m.get('z'), None);
    assert!(m.contains_key('A'));
    assert!(!m.contains_key('ø'));
}

#[test]
fn insert_if_absent_keeps_the_first_entry() {
    let mut m = Keymap::new();
    m.insert_if_absent('x', 45, false);
    m.insert_if_absent('x', 99, true);
    assert_eq!(m.get('x'), Some((45, false)));
    m.insert('x', 7, true);
    assert_eq!(m.get('x'), Some((7, true)));
}

#[test]
fn key_characters() {
    assert_eq!(key_char(0, 'a' as u32), None);
    assert_eq!(key_char(0x61, 'a' as u32), Some('a'));
    assert_eq!(key_char(0xe6, 'æ' as u32), Some('æ'));
    assert_eq!(key_char(0xff0d, 13), None);
    assert_eq!(key_char(0xff0d, 10), Some('\n'));
    assert_eq!(key_char(0xff09, 9), Some('\t'));
    assert_eq!(key_char(1, 0), None);
    assert_eq!(key_char(1, 0xd800), None);
    assert_eq!(key_char(1, 0x110000), None);
    assert_eq!(key_char(1, 0x85), None);
}

#[test]
fn ydotool_socket_path() {
    assert_eq!(ydotool_socket_in("/run/user/1000"), "/run/user/1000/.ydotool_socket");
}

#[test]
fn localectl_layout_line() {
    let out = "   System Locale: LANG=en_US.UTF-8\n       VC Keymap: dk\n      X11 Layout: dk\n       X11 Model: pc105\n";
    assert_eq!(layout_from_localectl(out), Some("dk".to_string()));
    assert_eq!(layout_from_localectl("   X11 Layout: us,de\r\n"), Some("us,de".to_string()));
    assert_eq!(layout_from_localectl("X11 Layout:   \nX11 Layout: de\n"), None);
    assert_eq!(layout_from_localectl("System Locale: C\n"), None);
    assert_eq!(layout_from_localectl(""), None);
}

#[test]
fn setxkbmap_layout() {
    let out = "rules:      evdev\nmodel:      pc105\nlayout:     fr\n";
    assert_eq!(layout_from_setxkbmap(out), Some("fr".to_string()));
    assert_eq!(layout_from_setxkbmap("  layout: fr\n"), None);
    assert_eq!(layout_from_setxkbmap("layout: gb:extd"), Some("gb".to_string()));
}
