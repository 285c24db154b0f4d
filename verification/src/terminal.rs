//! Terminal-side decisions: naming of colors and text attributes, key-event
//! formatting, cell-style resolution, the cursor-movement rule of the draw
//! pass, and the flush retry rule.
//!
//! The host hands colors and modifiers over as names; these functions map
//! them to the closed sets the terminal backend understands, and map key
//! codes and modifiers back to names.  The actual terminal writes stay
//! outside; only flushing standard output is performed here, behind a
//! trusted single attempt.
use vstd::prelude::*;

verus! {

/// A terminal color, including the terminal's default (`Reset`).
#[derive(Debug, Clone, Copy, PartialEq, Eq, Structural)]
pub enum Color {
    White,
    Black,
    Grey,
    DarkGrey,
    Red,
    DarkRed,
    Green,
    DarkGreen,
    Yellow,
    DarkYellow,
    Blue,
    DarkBlue,
    Magenta,
    DarkMagenta,
    Cyan,
    DarkCyan,
    Reset,
}

/// A text attribute of a styled cell.
#[derive(Debug, Clone, Copy, PartialEq, Eq, Structural)]
pub enum TextAttribute {
    Bold,
    Dim,
    Italic,
    Underlined,
    CrossedOut,
    Reset,
}

/// Whether two strings hold the same characters.
pub fn str_eq(a: &str, b: &str) -> (r: bool)
    ensures
        r == (a@ == b@),
{
    let n = a.unicode_len();
    let m = b.unicode_len();
    if n != m {
        proof {
            if a@ == b@ {
                assert(a@.len() == b@.len());
            }
        }
        return false;
    }
    let mut i: usize = 0;
    while i < n
        invariant
            n == a@.len(),
            n == b@.len(),
            i <= n,
            forall|j: int| 0 <= j < i ==> a@[j] == b@[j],
        decreases n - i,
    {
        if a.get_char(i) != b.get_char(i) {
            proof {
                assert(a@[i as int] != b@[i as int]);
            }
            return false;
        }
        i = i + 1;
    }
    proof {
        assert(a@ =~= b@);
    }
    true
}

/// The color a name stands for; an unknown name means the terminal
/// default.
pub open spec fn color_spec(name: Seq<char>) -> Color {
    if name == "white"@ {
        Color::White
    } else if name == "black"@ {
        Color::Black
    } else if name == "grey"@ {
        Color::Grey
    } else if name == "dark_grey"@ {
        Color::DarkGrey
    } else if name == "red"@ {
        Color::Red
    } else if name == "dark_red"@ {
        Color::DarkRed
    } else if name == "green"@ {
        Color::Green
    } else if name == "dark_green"@ {
        Color::DarkGreen
    } else if name == "yellow"@ {
        Color::Yellow
    } else if name == "dark_yellow"@ {
        Color::DarkYellow
    } else if name == "blue"@ {
        Color::Blue
    } else if name == "dark_blue"@ {
        Color::DarkBlue
    } else if name == "magenta"@ {
        Color::Magenta
    } else if name == "dark_magenta"@ {
        Color::DarkMagenta
    } else if name == "cyan"@ {
        Color::Cyan
    } else if name == "dark_cyan"@ {
        Color::DarkCyan
    } else {
        Color::Reset
    }
}

/// The color a name from the host stands for.
pub fn atom_to_color(name: &str) -> (c: Color)
    ensures
        c == color_spec(name@),
{
    if str_eq(name, "white") {
        Color::White
    } else if str_eq(name, "black") {
        Color::Black
    } else if str_eq(name, "grey") {
        Color::Grey
    } else if str_eq(name, "dark_grey") {
        Color::DarkGrey
    } else if str_eq(name, "red") {
        Color::Red
    } else if str_eq(name, "dark_red") {
        Color::DarkRed
    } else if str_eq(name, "green") {
        Color::Green
    } else if str_eq(name, "dark_green") {
        Color::DarkGreen
    } else if str_eq(name, "yellow") {
        Color::Yellow
    } else if str_eq(name, "dark_yellow") {
        Color::DarkYellow
    } else if str_eq(name, "blue") {
        Color::Blue
    } else if str_eq(name, "dark_blue") {
        Color::DarkBlue
    } else if str_eq(name, "magenta") {
        Color::Magenta
    } else if str_eq(name, "dark_magenta") {
        Color::DarkMagenta
    } else if str_eq(name, "cyan") {
        Color::Cyan
    } else if str_eq(name, "dark_cyan") {
        Color::DarkCyan
    } else {
        Color::Reset
    }
}

/// The text attribute a name stands for; an unknown name resets.
pub open spec fn attribute_spec(name: Seq<char>) -> TextAttribute {
    if name == "bold"@ {
        TextAttribute::Bold
    } else if name == "dim"@ {
        TextAttribute::Dim
    } else if name == "italic"@ {
        TextAttribute::Italic
    } else if name == "underline"@ {
        TextAttribute::Underlined
    } else if name == "strikethrough"@ {
        TextAttribute::CrossedOut
    } else {
        TextAttribute::Reset
    }
}

/// The text attribute a name from the host stands for.
pub fn atom_to_text_attribute(name: &str) -> (a: TextAttribute)
    ensures
        a == attribute_spec(name@),
{
    if str_eq(name, "bold") {
        TextAttribute::Bold
    } else if str_eq(name, "dim") {
        TextAttribute::Dim
    } else if str_eq(name, "italic") {
        TextAttribute::Italic
    } else if str_eq(name, "underline") {
        TextAttribute::Underlined
    } else if str_eq(name, "strikethrough") {
        TextAttribute::CrossedOut
    } else {
        TextAttribute::Reset
    }
}

/// A cell of the draw buffer as the host hands it over: its character and
/// color and modifier names.
#[derive(Debug, Clone)]
pub struct Cell {
    pub character: String,
    pub foreground: Option<String>,
    pub background: Option<String>,
    pub modifiers: Vec<String>,
}

/// The resolved style of a cell: colors and attributes the terminal
/// backend understands.
#[derive(Debug, Clone)]
pub struct CellStyle {
    pub foreground: Option<Color>,
    pub background: Option<Color>,
    pub attributes: Vec<TextAttribute>,
}

/// The resolved style of a cell: each color name resolved, each modifier
/// name resolved, in order.
pub fn content_style_from_cell(cell: &Cell) -> (s: CellStyle)
    ensures
        (match cell.foreground {
            None => s.foreground is None,
            Some(n) => s.foreground == Some(color_spec(n@)),
        }),
        (match cell.background {
            None => s.background is None,
            Some(n) => s.background == Some(color_spec(n@)),
        }),
        s.attributes@ == cell.modifiers@.map_values(|m: String| attribute_spec(m@)),
{
    let foreground = match &cell.foreground {
        Some(n) => Some(atom_to_color(n.as_str())),
        None => None,
    };
    let background = match &cell.background {
        Some(n) => Some(atom_to_color(n.as_str())),
        None => None,
    };
    let mut attributes: Vec<TextAttribute> = Vec::new();
    let mut i: usize = 0;
    while i < cell.modifiers.len()
        invariant
            i <= cell.modifiers@.len(),
            attributes@ == cell.modifiers@.take(i as int).map_values(
                |m: String| attribute_spec(m@),
            ),
        decreases cell.modifiers@.len() - i,
    {
        attributes.push(atom_to_text_attribute(cell.modifiers[i].as_str()));
        proof {
            assert(attributes@ =~= cell.modifiers@.take(i + 1int).map_values(
                |m: String| attribute_spec(m@),
            ));
        }
        i = i + 1;
    }
    proof {
        assert(cell.modifiers@.take(cell.modifiers@.len() as int) =~= cell.modifiers@);
    }
    CellStyle { foreground, background, attributes }
}

/// Whether the draw pass must move the cursor before printing the cell at
/// `(x, y)`: always for the first cell, and whenever the previous print
/// did not leave the cursor right before this position.
pub open spec fn cursor_move_needed(previous: Option<(u16, u16)>, x: u16, y: u16) -> bool {
    match previous {
        None => true,
        Some(p) => x == 0 || p.0 != x - 1 || p.1 != y,
    }
}

/// Whether the draw pass must move the cursor before printing at
/// `(x, y)`, given where the previous cell was printed.
pub fn needs_cursor_move(previous: Option<(u16, u16)>, x: u16, y: u16) -> (r: bool)
    ensures
        r == cursor_move_needed(previous, x, y),
{
    match previous {
        None => true,
        Some((px, py)) => x == 0 || px != x - 1 || py != y,
    }
}

} // verus!

verus! {

/// The decimal digit character for `d` (meaningful for `d < 10`).
pub open spec fn digit_char(d: nat) -> char
    recommends
        d < 10,
{
    if d == 0 {
        '0'
    } else if d == 1 {
        '1'
    } else if d == 2 {
        '2'
    } else if d == 3 {
        '3'
    } else if d == 4 {
        '4'
    } else if d == 5 {
        '5'
    } else if d == 6 {
        '6'
    } else if d == 7 {
        '7'
    } else if d == 8 {
        '8'
    } else {
        '9'
    }
}

/// The decimal digits of `n`, most significant first.
pub open spec fn dec_spec(n: nat) -> Seq<char>
    decreases n,
{
    if n < 10 {
        seq![digit_char(n)]
    } else {
        dec_spec(n / 10).push(digit_char(n % 10))
    }
}

/// The decimal digit character for `d`.
fn digit_char_exec(d: u8) -> (c: char)
    requires
        d < 10,
    ensures
        c == digit_char(d as nat),
{
    if d == 0 {
        '0'
    } else if d == 1 {
        '1'
    } else if d == 2 {
        '2'
    } else if d == 3 {
        '3'
    } else if d == 4 {
        '4'
    } else if d == 5 {
        '5'
    } else if d == 6 {
        '6'
    } else if d == 7 {
        '7'
    } else if d == 8 {
        '8'
    } else {
        '9'
    }
}

/// The decimal form of `n`.
pub fn u8_to_string(n: u8) -> (s: String)
    ensures
        s@ == dec_spec(n as nat),
{
    let mut digits: Vec<char> = Vec::new();
    if n < 10 {
        digits.push(digit_char_exec(n));
        proof {
            assert(digits@ =~= dec_spec(n as nat));
        }
    } else if n < 100 {
        digits.push(digit_char_exec(n / 10));
        digits.push(digit_char_exec(n % 10));
        proof {
            assert(n / 10 < 10);
            assert(n % 10 < 10);
            assert(dec_spec((n / 10) as nat) == seq![digit_char((n / 10) as nat)]);
            assert(digits@ =~= dec_spec(n as nat));
        }
    } else {
        digits.push(digit_char_exec(n / 100));
        digits.push(digit_char_exec((n / 10) % 10));
        digits.push(digit_char_exec(n % 10));
        proof {
            assert(n / 100 < 10);
            assert(n / 10 >= 10);
            assert((n / 10) / 10 == n / 100) by (nonlinear_arith);
            assert(dec_spec((n / 100) as nat) == seq![digit_char((n / 100) as nat)]);
            assert(dec_spec((n / 10) as nat) == dec_spec((n / 100) as nat).push(
                digit_char(((n / 10) % 10) as nat),
            ));
            assert(digits@ =~= dec_spec(n as nat));
        }
    }
    crate::text::string_from_chars(&digits)
}

/// A key code as decoded from the terminal, reduced to the closed set the
/// host understands; `Other` stands for any code outside that set.
#[derive(Debug, Clone, Copy, PartialEq, Eq, Structural)]
pub enum KeyCode {
    Backspace,
    Enter,
    Left,
    Right,
    Up,
    Down,
    Home,
    End,
    PageUp,
    PageDown,
    Tab,
    BackTab,
    Delete,
    Insert,
    F(u8),
    Char(char),
    Null,
    Esc,
    CapsLock,
    ScrollLock,
    NumLock,
    PrintScreen,
    Pause,
    Menu,
    KeypadBegin,
    Other,
}

/// A formatted key code for the host: a named key, or a printable
/// character.
#[derive(Debug, Clone)]
pub enum FormattedKeyCode {
    Named(String),
    CharKey(char),
}

/// Whether `r` is the formatting of `code`: the documented name for each
/// named key, `f` followed by the decimal number for a function key, the
/// character itself for a character key, and nothing for a code outside
/// the set.
pub open spec fn formatted_key_spec(code: KeyCode, r: Option<FormattedKeyCode>) -> bool {
    match code {
        KeyCode::Backspace => r matches Some(FormattedKeyCode::Named(s)) && s@ == "backspace"@,
        KeyCode::Enter => r matches Some(FormattedKeyCode::Named(s)) && s@ == "enter"@,
        KeyCode::Left => r matches Some(FormattedKeyCode::Named(s)) && s@ == "left"@,
        KeyCode::Right => r matches Some(FormattedKeyCode::Named(s)) && s@ == "right"@,
        KeyCode::Up => r matches Some(FormattedKeyCode::Named(s)) && s@ == "up"@,
        KeyCode::Down => r matches Some(FormattedKeyCode::Named(s)) && s@ == "down"@,
        KeyCode::Home => r matches Some(FormattedKeyCode::Named(s)) && s@ == "home"@,
        KeyCode::End => r matches Some(FormattedKeyCode::Named(s)) && s@ == "end"@,
        KeyCode::PageUp => r matches Some(FormattedKeyCode::Named(s)) && s@ == "page_up"@,
        KeyCode::PageDown => r matches Some(FormattedKeyCode::Named(s)) && s@ == "page_down"@,
        KeyCode::Tab => r matches Some(FormattedKeyCode::Named(s)) && s@ == "tab"@,
        KeyCode::BackTab => r matches Some(FormattedKeyCode::Named(s)) && s@ == "back_tab"@,
        KeyCode::Delete => r matches Some(FormattedKeyCode::Named(s)) && s@ == "delete"@,
        KeyCode::Insert => r matches Some(FormattedKeyCode::Named(s)) && s@ == "insert"@,
        KeyCode::F(n) => r matches Some(FormattedKeyCode::Named(s)) && s@ == seq!['f'] + dec_spec(
            n as nat,
        ),
        KeyCode::Char(c) => r matches Some(FormattedKeyCode::CharKey(rc)) && rc == c,
        KeyCode::Null => r matches Some(FormattedKeyCode::Named(s)) && s@ == "null"@,
        KeyCode::Esc => r matches Some(FormattedKeyCode::Named(s)) && s@ == "esc"@,
        KeyCode::CapsLock => r matches Some(FormattedKeyCode::Named(s)) && s@ == "caps_lock"@,
        KeyCode::ScrollLock => r matches Some(FormattedKeyCode::Named(s)) && s@ == "scroll_lock"@,
        KeyCode::NumLock => r matches Some(FormattedKeyCode::Named(s)) && s@ == "num_lock"@,
        KeyCode::PrintScreen => r matches Some(FormattedKeyCode::Named(s)) && s@
            == "print_screen"@,
        KeyCode::Pause => r matches Some(FormattedKeyCode::Named(s)) && s@ == "pause"@,
        KeyCode::Menu => r matches Some(FormattedKeyCode::Named(s)) && s@ == "menu"@,
        KeyCode::KeypadBegin => r matches Some(FormattedKeyCode::Named(s)) && s@
            == "keypad_begin"@,
        KeyCode::Other => r is None,
    }
}

/// The formatting of a key code for the host: its documented name, the
/// decimal-numbered name of a function key, or the character itself; a
/// code outside the set formats to nothing.
pub fn format_key_code(code: KeyCode) -> (r: Option<FormattedKeyCode>)
    ensures
        formatted_key_spec(code, r),
{
    match code {
        KeyCode::Backspace => Some(FormattedKeyCode::Named("backspace".to_owned())),
        KeyCode::Enter => Some(FormattedKeyCode::Named("enter".to_owned())),
        KeyCode::Left => Some(FormattedKeyCode::Named("left".to_owned())),
        KeyCode::Right => Some(FormattedKeyCode::Named("right".to_owned())),
        KeyCode::Up => Some(FormattedKeyCode::Named("up".to_owned())),
        KeyCode::Down => Some(FormattedKeyCode::Named("down".to_owned())),
        KeyCode::Home => Some(FormattedKeyCode::Named("home".to_owned())),
        KeyCode::End => Some(FormattedKeyCode::Named("end".to_owned())),
        KeyCode::PageUp => Some(FormattedKeyCode::Named("page_up".to_owned())),
        KeyCode::PageDown => Some(FormattedKeyCode::Named("page_down".to_owned())),
        KeyCode::Tab => Some(FormattedKeyCode::Named("tab".to_owned())),
        KeyCode::BackTab => Some(FormattedKeyCode::Named("back_tab".to_owned())),
        KeyCode::Delete => Some(FormattedKeyCode::Named("delete".to_owned())),
        KeyCode::Insert => Some(FormattedKeyCode::Named("insert".to_owned())),
        KeyCode::F(n) => {
            let digits = u8_to_string(n);
            let mut name = "f".to_owned();
            name.append(digits.as_str());
            proof {
                assert(name@ == "f"@ + dec_spec(n as nat));
                reveal_strlit("f");
                assert("f"@ =~= seq!['f']);
            }
            Some(FormattedKeyCode::Named(name))
        },
        KeyCode::Char(c) => Some(FormattedKeyCode::CharKey(c)),
        KeyCode::Null => Some(FormattedKeyCode::Named("null".to_owned())),
        KeyCode::Esc => Some(FormattedKeyCode::Named("esc".to_owned())),
        KeyCode::CapsLock => Some(FormattedKeyCode::Named("caps_lock".to_owned())),
        KeyCode::ScrollLock => Some(FormattedKeyCode::Named("scroll_lock".to_owned())),
        KeyCode::NumLock => Some(FormattedKeyCode::Named("num_lock".to_owned())),
        KeyCode::PrintScreen => Some(FormattedKeyCode::Named("print_screen".to_owned())),
        KeyCode::Pause => Some(FormattedKeyCode::Named("pause".to_owned())),
        KeyCode::Menu => Some(FormattedKeyCode::Named("menu".to_owned())),
        KeyCode::KeypadBegin => Some(FormattedKeyCode::Named("keypad_begin".to_owned())),
        KeyCode::Other => None,
    }
}

/// The modifier keys held during a key event.
#[derive(Debug, Clone, Copy, PartialEq, Eq, Structural)]
pub struct KeyModifiers {
    pub shift: bool,
    pub control: bool,
    pub alt: bool,
    pub super_key: bool,
    pub hyper: bool,
}

/// The views of a vector of strings.
pub open spec fn string_views(v: Seq<String>) -> Seq<Seq<char>> {
    v.map_values(|s: String| s@)
}

/// The modifier names of a key event, in the canonical order shift,
/// control, alt, super, hyper.
pub open spec fn modifiers_spec(m: KeyModifiers) -> Seq<Seq<char>> {
    let s0 = Seq::<Seq<char>>::empty();
    let s1 = if m.shift {
        s0.push("shift"@)
    } else {
        s0
    };
    let s2 = if m.control {
        s1.push("control"@)
    } else {
        s1
    };
    let s3 = if m.alt {
        s2.push("alt"@)
    } else {
        s2
    };
    let s4 = if m.super_key {
        s3.push("super"@)
    } else {
        s3
    };
    if m.hyper {
        s4.push("hyper"@)
    } else {
        s4
    }
}

/// The names of the held modifiers, in the canonical order shift, control,
/// alt, super, hyper.
pub fn format_key_modifiers(modifiers: KeyModifiers) -> (r: Vec<String>)
    ensures
        string_views(r@) == modifiers_spec(modifiers),
{
    let mut result: Vec<String> = Vec::new();
    proof {
        assert(string_views(result@) =~= Seq::<Seq<char>>::empty());
    }
    if modifiers.shift {
        let ghost prev = result@;
        result.push("shift".to_owned());
        proof {
            assert(string_views(result@) =~= string_views(prev).push("shift"@));
        }
    }
    if modifiers.control {
        let ghost prev = result@;
        result.push("control".to_owned());
        proof {
            assert(string_views(result@) =~= string_views(prev).push("control"@));
        }
    }
    if modifiers.alt {
        let ghost prev = result@;
        result.push("alt".to_owned());
        proof {
            assert(string_views(result@) =~= string_views(prev).push("alt"@));
        }
    }
    if modifiers.super_key {
        let ghost prev = result@;
        result.push("super".to_owned());
        proof {
            assert(string_views(result@) =~= string_views(prev).push("super"@));
        }
    }
    if modifiers.hyper {
        let ghost prev = result@;
        result.push("hyper".to_owned());
        proof {
            assert(string_views(result@) =~= string_views(prev).push("hyper"@));
        }
    }
    result
}

/// An event as decoded from the terminal: a key with its modifiers, a
/// resize with the new dimensions, or anything else.
#[derive(Debug, Clone, Copy, PartialEq, Eq, Structural)]
pub enum InputEvent {
    Key(KeyCode, KeyModifiers),
    Resize(u16, u16),
    Other,
}

/// An event worth reporting to the host: a formatted key event with its
/// modifier names, or a resize.
#[derive(Debug, Clone)]
pub enum TerminalEvent {
    Key(FormattedKeyCode, Vec<String>),
    Resize(u16, u16),
}

/// Whether `r` is the classification of `ev`: a key event with a
/// formattable code becomes a key report, a resize becomes a resize
/// report, and everything else is dropped so the caller polls again.
pub open spec fn classified_event_spec(ev: InputEvent, r: Option<TerminalEvent>) -> bool {
    match ev {
        InputEvent::Key(code, mods) => {
            if code is Other {
                r is None
            } else {
                r matches Some(TerminalEvent::Key(fc, names)) && formatted_key_spec(
                    code,
                    Some(fc),
                ) && string_views(names@) == modifiers_spec(mods)
            }
        },
        InputEvent::Resize(w, h) => r == Some(TerminalEvent::Resize(w, h)),
        InputEvent::Other => r is None,
    }
}

/// The decision of the event poll loop: which decoded events are reported
/// to the host, and as what; `None` means the caller polls again.
pub fn classify_event(ev: InputEvent) -> (r: Option<TerminalEvent>)
    ensures
        classified_event_spec(ev, r),
{
    match ev {
        InputEvent::Key(code, mods) => {
            match format_key_code(code) {
                Some(fc) => Some(TerminalEvent::Key(fc, format_key_modifiers(mods))),
                None => None,
            }
        },
        InputEvent::Resize(w, h) => Some(TerminalEvent::Resize(w, h)),
        InputEvent::Other => None,
    }
}

/// The standard output stream, opaque to verification; only flushing it
/// is performed from here.
#[verifier::external_type_specification]
#[verifier::external_body]
pub struct ExStdout(std::io::Stdout);

/// Relies on std's `Write::flush` for `Stdout`: one flush attempt.
/// Returns whether the flush went through; a stream that would block
/// reports `false` so the caller can retry, and any other stream error
/// ends the process, as nothing can be done with the stream then.
#[verifier::external_body]
fn flush_once(writer: &mut std::io::Stdout) -> (done: bool) {
    match std::io::Write::flush(writer) {
        Ok(()) => true,
        Err(err) => {
            if err.kind() == std::io::ErrorKind::WouldBlock {
                false
            } else {
                let r: Result<(), std::io::Error> = Err(err);
                r.unwrap();
                false
            }
        },
    }
}

/// Flushes standard output, retrying while the stream reports that it
/// would block.  The retry budget exists only to state termination; it is
/// far too large to run out in practice.
pub fn flush(writer: &mut std::io::Stdout) {
    let mut done = false;
    let mut budget: u64 = u64::MAX;
    while !done && budget > 0
        decreases budget,
    {
        done = flush_once(writer);
        budget = budget - 1;
    }
}

} // verus!
