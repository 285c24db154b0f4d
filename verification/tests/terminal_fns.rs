use orange_core::terminal::{
    atom_to_color, atom_to_text_attribute, classify_event, content_style_from_cell, flush,
    format_key_code, format_key_modifiers, needs_cursor_move, str_eq, u8_to_string, Cell, Color,
    FormattedKeyCode, InputEvent, KeyCode, KeyModifiers, TerminalEvent, TextAttribute,
};

#[test]
fn color_names_resolve() {
    assert_eq!(atom_to_color("white"), Color::White);
    assert_eq!(atom_to_color("black"), Color::Black);
    assert_eq!(atom_to_color("grey"), Color::Grey);
    assert_eq!(atom_to_color("dark_grey"), Color::DarkGrey);
    assert_eq!(atom_to_color("red"), Color::Red);
    assert_eq!(atom_to_color("dark_red"), Color::DarkRed);
    assert_eq!(atom_to_color("green"), Color::Green);
    assert_eq!(atom_to_color("dark_green"), Color::DarkGreen);
    assert_eq!(atom_to_color("yellow"), Color::Yellow);
    assert_eq!(atom_to_color("dark_yellow"), Color::DarkYellow);
    assert_eq!(atom_to_color("blue"), Color::Blue);
    assert_eq!(atom_to_color("dark_blue"), Color::DarkBlue);
    assert_eq!(atom_to_color("magenta"), Color::Magenta);
    assert_eq!(atom_to_color("dark_magenta"), Color::DarkMagenta);
    assert_eq!(atom_to_color("cyan"), Color::Cyan);
    assert_eq!(atom_to_color("dark_cyan"), Color::DarkCyan);
    assert_eq!(atom_to_color("no_such_color"), Color::Reset);
    assert_eq!(atom_to_color(""), Color::Reset);
}

#[test]
fn attribute_names_resolve() {
    assert_eq!(atom_to_text_attribute("bold"), TextAttribute::Bold);
    assert_eq!(atom_to_text_attribute("dim"), TextAttribute::Dim);
    assert_eq!(atom_to_text_attribute("italic"), TextAttribute::Italic);
    assert_eq!(atom_to_text_attribute("underline"), TextAttribute::Underlined);
    assert_eq!(
        atom_to_text_attribute("strikethrough"),
        TextAttribute::CrossedOut
    );
    assert_eq!(atom_to_text_attribute("sparkly"), TextAttribute::Reset);
}

#[test]
fn str_eq_compares_characters() {
    assert!(str_eq("abc", "abc"));
    assert!(!str_eq("abc", "abd"));
    assert!(!str_eq("abc", "ab"));
    assert!(str_eq("", ""));
    assert!(str_eq("e\u{301}", "e\u{301}"));
    assert!(!str_eq("e\u{301}", "\u{e9}"));
}

#[test]
fn cell_style_resolves_names() {
    let cell = Cell {
        character: "x".to_string(),
        foreground: Some("red".to_string()),
        background: None,
        modifiers: vec!["bold".to_string(), "underline".to_string(), "odd".to_string()],
    };
    let style = content_style_from_cell(&cell);
    assert_eq!(style.foreground, Some(Color::Red));
    assert_eq!(style.background, None);
    assert_eq!(
        style.attributes,
        vec![
            TextAttribute::Bold,
            TextAttribute::Underlined,
            TextAttribute::Reset,
        ]
    );
}

#[test]
fn decimal_formatting() {
    assert_eq!(u8_to_string(0), "0");
    assert_eq!(u8_to_string(7), "7");
    assert_eq!(u8_to_string(10), "10");
    assert_eq!(u8_to_string(42), "42");
    assert_eq!(u8_to_string(99), "99");
    assert_eq!(u8_to_string(100), "100");
    assert_eq!(u8_to_string(255), "255");
}

fn named(r: Option<FormattedKeyCode>) -> String {
    match r {
        Some(FormattedKeyCode::Named(s)) => s,
        other => panic!("expected a named key, got {:?}", other),
    }
}

#[test]
fn key_codes_format_to_names() {
    assert_eq!(named(format_key_code(KeyCode::Backspace)), "backspace");
    assert_eq!(named(format_key_code(KeyCode::Enter)), "enter");
    assert_eq!(named(format_key_code(KeyCode::Left)), "left");
    assert_eq!(named(format_key_code(KeyCode::Right)), "right");
    assert_eq!(named(format_key_code(KeyCode::Up)), "up");
    assert_eq!(named(format_key_code(KeyCode::Down)), "down");
    assert_eq!(named(format_key_code(KeyCode::Home)), "home");
    assert_eq!(named(format_key_code(KeyCode::End)), "end");
    assert_eq!(named(format_key_code(KeyCode::PageUp)), "page_up");
    assert_eq!(named(format_key_code(KeyCode::PageDown)), "page_down");
    assert_eq!(named(format_key_code(KeyCode::Tab)), "tab");
    assert_eq!(named(format_key_code(KeyCode::BackTab)), "back_tab");
    assert_eq!(named(format_key_code(KeyCode::Delete)), "delete");
    assert_eq!(named(format_key_code(KeyCode::Insert)), "insert");
    assert_eq!(named(format_key_code(KeyCode::F(1))), "f1");
    assert_eq!(named(format_key_code(KeyCode::F(12))), "f12");
    assert_eq!(named(format_key_code(KeyCode::Null)), "null");
    assert_eq!(named(format_key_code(KeyCode::Esc)), "esc");
    assert_eq!(named(format_key_code(KeyCode::CapsLock)), "caps_lock");
    assert_eq!(named(format_key_code(KeyCode::ScrollLock)), "scroll_lock");
    assert_eq!(named(format_key_code(KeyCode::NumLock)), "num_lock");
    assert_eq!(named(format_key_code(KeyCode::PrintScreen)), "print_screen");
    assert_eq!(named(format_key_code(KeyCode::Pause)), "pause");
    assert_eq!(named(format_key_code(KeyCode::Menu)), "menu");
    assert_eq!(named(format_key_code(KeyCode::KeypadBegin)), "keypad_begin");

    assert!(matches!(
        format_key_code(KeyCode::Char('q')),
        Some(FormattedKeyCode::CharKey('q'))
    ));
    assert!(format_key_code(KeyCode::Other).is_none());
}

fn mods(shift: bool, control: bool, alt: bool, super_key: bool, hyper: bool) -> KeyModifiers {
    KeyModifiers { shift, control, alt, super_key, hyper }
}

#[test]
fn modifiers_in_canonical_order() {
    assert_eq!(
        format_key_modifiers(mods(true, true, true, true, true)),
        vec!["shift", "control", "alt", "super", "hyper"]
    );
    assert_eq!(
        format_key_modifiers(mods(false, true, false, true, false)),
        vec!["control", "super"]
    );
    assert!(format_key_modifiers(mods(false, false, false, false, false)).is_empty());
}

#[test]
fn events_classified() {
    let r = classify_event(InputEvent::Key(
        KeyCode::Enter,
        mods(true, false, false, false, false),
    ));
    match r {
        Some(TerminalEvent::Key(FormattedKeyCode::Named(name), names)) => {
            assert_eq!(name, "enter");
            assert_eq!(names, vec!["shift"]);
        }
        other => panic!("unexpected classification: {:?}", other),
    }

    assert!(matches!(
        classify_event(InputEvent::Resize(80, 24)),
        Some(TerminalEvent::Resize(80, 24))
    ));
    assert!(classify_event(InputEvent::Key(
        KeyCode::Other,
        mods(false, false, false, false, false)
    ))
    .is_none());
    assert!(classify_event(InputEvent::Other).is_none());
}

#[test]
fn cursor_move_decision() {
    assert!(needs_cursor_move(None, 5, 5));
    assert!(!needs_cursor_move(Some((4, 5)), 5, 5));
    assert!(needs_cursor_move(Some((5, 5)), 5, 5));
    assert!(needs_cursor_move(Some((4, 4)), 5, 5));
    assert!(needs_cursor_move(Some((0, 0)), 0, 0));
}

#[test]
fn flush_stdout_returns() {
    let mut out = std::io::stdout();
    flush(&mut out);
}
