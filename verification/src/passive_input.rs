//! Passive capture of the keyboard: which global key presses become text,
//! commands or remote scrolling, decided from a key code and modifier flags.
use vstd::prelude::*;

verus! {

/// Event type of a key press.
pub const KEY_DOWN: u32 = 10;
/// Modifier flag of the Shift key.
pub const SHIFT_FLAG: u64 = 0x0002_0000;
/// Modifier flag of the Command key.
pub const COMMAND_FLAG: u64 = 0x0010_0000;
/// Modifier flag of the Option key.
pub const OPTION_FLAG: u64 = 0x0008_0000;

/// The characters that a US keyboard key produces, unshifted and shifted.
pub open spec fn key_pair(keycode: u16) -> Option<(Seq<char>, Seq<char>)> {
    match keycode {
        0 => Some(("a"@, "A"@)),
        1 => Some(("s"@, "S"@)),
        2 => Some(("d"@, "D"@)),
        3 => Some(("f"@, "F"@)),
        4 => Some(("h"@, "H"@)),
        5 => Some(("g"@, "G"@)),
        6 => Some(("z"@, "Z"@)),
        7 => Some(("x"@, "X"@)),
        8 => Some(("c"@, "C"@)),
        9 => Some(("v"@, "V"@)),
        11 => Some(("b"@, "B"@)),
        12 => Some(("q"@, "Q"@)),
        13 => Some(("w"@, "W"@)),
        14 => Some(("e"@, "E"@)),
        15 => Some(("r"@, "R"@)),
        16 => Some(("y"@, "Y"@)),
        17 => Some(("t"@, "T"@)),
        18 => Some(("1"@, "!"@)),
        19 => Some(("2"@, "@"@)),
        20 => Some(("3"@, "#"@)),
        21 => Some(("4"@, "$"@)),
        22 => Some(("6"@, "^"@)),
        23 => Some(("5"@, "%"@)),
        24 => Some(("="@, "+"@)),
        25 => Some(("9"@, "("@)),
        26 => Some(("7"@, "&"@)),
        27 => Some(("-"@, "_"@)),
        28 => Some(("8"@, "*"@)),
        29 => Some(("0"@, ")"@)),
        30 => Some(("]"@, "}"@)),
        31 => Some(("o"@, "O"@)),
        32 => Some(("u"@, "U"@)),
        33 => Some(("["@, "{"@)),
        34 => Some(("i"@, "I"@)),
        35 => Some(("p"@, "P"@)),
        37 => Some(("l"@, "L"@)),
        38 => Some(("j"@, "J"@)),
        39 => Some(("'"@, "\""@)),
        40 => Some(("k"@, "K"@)),
        41 => Some((";"@, ":"@)),
        42 => Some(("\\"@, "|"@)),
        43 => Some((","@, "<"@)),
        44 => Some(("/"@, "?"@)),
        45 => Some(("n"@, "N"@)),
        46 => Some(("m"@, "M"@)),
        47 => Some(("."@, ">"@)),
        48 => Some(("\t"@, "\t"@)),
        49 => Some((" "@, " "@)),
        _ => None,
    }
}

/// The text of a key on a US layout, without any platform text service.
pub open spec fn key_text(keycode: u16, shifted: bool) -> Option<Seq<char>> {
    match key_pair(keycode) {
        Some(p) => Some(if shifted { p.1 } else { p.0 }),
        None => None,
    }
}

/// The characters of a key of the table, unshifted and shifted.
pub open spec fn key_chars(keycode: u16) -> Option<(char, char)> {
    match keycode {
        0 => Some(('a', 'A')),
        1 => Some(('s', 'S')),
        2 => Some(('d', 'D')),
        3 => Some(('f', 'F')),
        4 => Some(('h', 'H')),
        5 => Some(('g', 'G')),
        6 => Some(('z', 'Z')),
        7 => Some(('x', 'X')),
        8 => Some(('c', 'C')),
        9 => Some(('v', 'V')),
        11 => Some(('b', 'B')),
        12 => Some(('q', 'Q')),
        13 => Some(('w', 'W')),
        14 => Some(('e', 'E')),
        15 => Some(('r', 'R')),
        16 => Some(('y', 'Y')),
        17 => Some(('t', 'T')),
        18 => Some(('1', '!')),
        19 => Some(('2', '@')),
        20 => Some(('3', '#')),
        21 => Some(('4', '$')),
        22 => Some(('6', '^')),
        23 => Some(('5', '%')),
        24 => Some(('=', '+')),
        25 => Some(('9', '(')),
        26 => Some(('7', '&')),
        27 => Some(('-', '_')),
        28 => Some(('8', '*')),
        29 => Some(('0', ')')),
        30 => Some((']', '}')),
        31 => Some(('o', 'O')),
        32 => Some(('u', 'U')),
        33 => Some(('[', '{')),
        34 => Some(('i', 'I')),
        35 => Some(('p', 'P')),
        37 => Some(('l', 'L')),
        38 => Some(('j', 'J')),
        39 => Some(('\'', '\"')),
        40 => Some(('k', 'K')),
        41 => Some((';', ':')),
        42 => Some(('\\', '|')),
        43 => Some((',', '<')),
        44 => Some(('/', '?')),
        45 => Some(('n', 'N')),
        46 => Some(('m', 'M')),
        47 => Some(('.', '>')),
        48 => Some(('\t', '\t')),
        49 => Some((' ', ' ')),
        _ => None,
    }
}

/// The key of the table that types a character without Shift.
spec fn unshifted_key(c: char) -> Option<u16> {
    match c {
        'a' => Some(0u16),
        's' => Some(1u16),
        'd' => Some(2u16),
        'f' => Some(3u16),
        'h' => Some(4u16),
        'g' => Some(5u16),
        'z' => Some(6u16),
        'x' => Some(7u16),
        'c' => Some(8u16),
        'v' => Some(9u16),
        'b' => Some(11u16),
        'q' => Some(12u16),
        'w' => Some(13u16),
        'e' => Some(14u16),
        'r' => Some(15u16),
        'y' => Some(16u16),
        't' => Some(17u16),
        '1' => Some(18u16),
        '2' => Some(19u16),
        '3' => Some(20u16),
        '4' => Some(21u16),
        '6' => Some(22u16),
        '5' => Some(23u16),
        '=' => Some(24u16),
        '9' => Some(25u16),
        '7' => Some(26u16),
        '-' => Some(27u16),
        '8' => Some(28u16),
        '0' => Some(29u16),
        ']' => Some(30u16),
        'o' => Some(31u16),
        'u' => Some(32u16),
        '[' => Some(33u16),
        'i' => Some(34u16),
        'p' => Some(35u16),
        'l' => Some(37u16),
        'j' => Some(38u16),
        '\'' => Some(39u16),
        'k' => Some(40u16),
        ';' => Some(41u16),
        '\\' => Some(42u16),
        ',' => Some(43u16),
        '/' => Some(44u16),
        'n' => Some(45u16),
        'm' => Some(46u16),
        '.' => Some(47u16),
        '\t' => Some(48u16),
        ' ' => Some(49u16),
        _ => None,
    }
}

proof fn lemma_key_pair_chars(keycode: u16)
    ensures
        match key_chars(keycode) {
            Some(p) => key_pair(keycode) == Some((seq![p.0], seq![p.1])),
            None => key_pair(keycode) is None,
        },
{
    reveal_strlit("a");
    reveal_strlit("A");
    reveal_strlit("s");
    reveal_strlit("S");
    reveal_strlit("d");
    reveal_strlit("D");
    reveal_strlit("f");
    reveal_strlit("F");
    reveal_strlit("h");
    reveal_strlit("H");
    reveal_strlit("g");
    reveal_strlit("G");
    reveal_strlit("z");
    reveal_strlit("Z");
    reveal_strlit("x");
    reveal_strlit("X");
    reveal_strlit("c");
    reveal_strlit("C");
    reveal_strlit("v");
    reveal_strlit("V");
    reveal_strlit("b");
    reveal_strlit("B");
    reveal_strlit("q");
    reveal_strlit("Q");
    reveal_strlit("w");
    reveal_strlit("W");
    reveal_strlit("e");
    reveal_strlit("E");
    reveal_strlit("r");
    reveal_strlit("R");
    reveal_strlit("y");
    reveal_strlit("Y");
    reveal_strlit("t");
    reveal_strlit("T");
    reveal_strlit("1");
    reveal_strlit("!");
    reveal_strlit("2");
    reveal_strlit("@");
    reveal_strlit("3");
    reveal_strlit("#");
    reveal_strlit("4");
    reveal_strlit("$");
    reveal_strlit("6");
    reveal_strlit("^");
    reveal_strlit("5");
    reveal_strlit("%");
    reveal_strlit("=");
    reveal_strlit("+");
    reveal_strlit("9");
    reveal_strlit("(");
    reveal_strlit("7");
    reveal_strlit("&");
    reveal_strlit("-");
    reveal_strlit("_");
    reveal_strlit("8");
    reveal_strlit("*");
    reveal_strlit("0");
    reveal_strlit(")");
    reveal_strlit("]");
    reveal_strlit("}");
    reveal_strlit("o");
    reveal_strlit("O");
    reveal_strlit("u");
    reveal_strlit("U");
    reveal_strlit("[");
    reveal_strlit("{");
    reveal_strlit("i");
    reveal_strlit("I");
    reveal_strlit("p");
    reveal_strlit("P");
    reveal_strlit("l");
    reveal_strlit("L");
    reveal_strlit("j");
    reveal_strlit("J");
    reveal_strlit("'");
    reveal_strlit("\"");
    reveal_strlit("k");
    reveal_strlit("K");
    reveal_strlit(";");
    reveal_strlit(":");
    reveal_strlit("\\");
    reveal_strlit("|");
    reveal_strlit(",");
    reveal_strlit("<");
    reveal_strlit("/");
    reveal_strlit("?");
    reveal_strlit("n");
    reveal_strlit("N");
    reveal_strlit("m");
    reveal_strlit("M");
    reveal_strlit(".");
    reveal_strlit(">");
    reveal_strlit("\t");
    reveal_strlit(" ");
}

proof fn lemma_shifted_char_is_not_typed_unshifted(keycode: u16)
    ensures
        key_chars(keycode) matches Some(p) ==> unshifted_key(p.1) == (if keycode == 48 || keycode == 49 {
            Some(keycode)
        } else {
            None
        }),
{
}

proof fn lemma_unshifted_key(keycode: u16)
    ensures
        key_chars(keycode) matches Some(p) ==> unshifted_key(p.0) == Some(keycode),
        key_chars(keycode) matches Some(p) ==> (p.0 as u32) < 128 && (p.1 as u32) < 128,
        key_chars(keycode) matches Some(p) ==> ('a' <= p.0 && p.0 <= 'z' ==> p.1 == ((p.0 as u32) - 32) as char),
        key_chars(keycode) matches Some(p) ==> (keycode == 48 || keycode == 49 ==> p.1 == p.0),
{
}

/// Every key of the table types one ASCII character with and without
/// Shift; Shift turns a lower-case letter into its capital and leaves Tab
/// and Space as they are; and no other key types the same character
/// without Shift.
pub proof fn lemma_key_table_is_a_keyboard(k: u16, j: u16)
    requires
        key_text(k, false) is Some,
    ensures
        key_text(k, true) is Some,
        key_text(k, false)->0.len() == 1,
        key_text(k, true)->0.len() == 1,
        (key_text(k, false)->0[0] as u32) < 128,
        (key_text(k, true)->0[0] as u32) < 128,
        'a' <= key_text(k, false)->0[0] && key_text(k, false)->0[0] <= 'z' ==> key_text(k, true)->0[0]
            == ((key_text(k, false)->0[0] as u32) - 32) as char,
        k == 48 || k == 49 ==> key_text(k, true) == key_text(k, false),
        j != k ==> key_text(j, false) != key_text(k, false),
{
    lemma_key_pair_chars(k);
    lemma_key_pair_chars(j);
    lemma_unshifted_key(k);
    lemma_unshifted_key(j);
    let pk = key_chars(k)->0;
    assert(seq![pk.0][0] == pk.0);
    assert(seq![pk.1][0] == pk.1);
    if j != k && key_text(j, false) == key_text(k, false) {
        let pj = key_chars(j)->0;
        assert(seq![pj.0][0] == pj.0);
        assert(pj.0 == pk.0);
    }
}

/// Shift always changes what a key types, except for Tab and Space: no key
/// types with Shift a character that any key types without it, apart from
/// Tab and Space themselves; so `/` and `?`, `1` and `!`, a letter and its
/// capital are told apart for every key.
pub proof fn lemma_shift_changes_the_character(j: u16, k: u16)
    requires
        key_text(k, false) is Some,
        key_text(j, true) == key_text(k, false),
    ensures
        j == k,
        k == 48 || k == 49,
{
    lemma_key_pair_chars(k);
    lemma_key_pair_chars(j);
    lemma_unshifted_key(k);
    lemma_shifted_char_is_not_typed_unshifted(j);
    let pk = key_chars(k)->0;
    let pj = key_chars(j)->0;
    assert(seq![pk.0][0] == pk.0);
    assert(seq![pj.1][0] == pj.1);
    assert(pj.1 == pk.0);
}

/// Maps a key code to the text it types on a US layout.
pub fn keycode_text(keycode: u16, shifted: bool) -> (r: Option<&'static str>)
    ensures
        match key_text(keycode, shifted) {
            Some(t) => r matches Some(s) && s@ == t,
            None => r is None,
        },
{
    let pair: (&'static str, &'static str) = match keycode {
        0 => ("a", "A"),
        1 => ("s", "S"),
        2 => ("d", "D"),
        3 => ("f", "F"),
        4 => ("h", "H"),
        5 => ("g", "G"),
        6 => ("z", "Z"),
        7 => ("x", "X"),
        8 => ("c", "C"),
        9 => ("v", "V"),
        11 => ("b", "B"),
        12 => ("q", "Q"),
        13 => ("w", "W"),
        14 => ("e", "E"),
        15 => ("r", "R"),
        16 => ("y", "Y"),
        17 => ("t", "T"),
        18 => ("1", "!"),
        19 => ("2", "@"),
        20 => ("3", "#"),
        21 => ("4", "$"),
        22 => ("6", "^"),
        23 => ("5", "%"),
        24 => ("=", "+"),
        25 => ("9", "("),
        26 => ("7", "&"),
        27 => ("-", "_"),
        28 => ("8", "*"),
        29 => ("0", ")"),
        30 => ("]", "}"),
        31 => ("o", "O"),
        32 => ("u", "U"),
        33 => ("[", "{"),
        34 => ("i", "I"),
        35 => ("p", "P"),
        37 => ("l", "L"),
        38 => ("j", "J"),
        39 => ("'", "\""),
        40 => ("k", "K"),
        41 => (";", ":"),
        42 => ("\\", "|"),
        43 => (",", "<"),
        44 => ("/", "?"),
        45 => ("n", "N"),
        46 => ("m", "M"),
        47 => (".", ">"),
        48 => ("\t", "\t"),
        49 => (" ", " "),
        _ => return None,
    };
    Some(if shifted { pair.1 } else { pair.0 })
}

/// The remote scrolling command of a shortcut: with Option held, Up scrolls
/// a step (a page with Shift), Down scrolls a step (a page with Shift, to the
/// bottom with Command), and Space toggles following.
pub open spec fn scroll_action_of(keycode: u16, flags: u64) -> Option<Seq<char>> {
    if flags & OPTION_FLAG == 0 {
        None
    } else if keycode == 126 && flags & SHIFT_FLAG != 0 {
        Some("page_up"@)
    } else if keycode == 125 && flags & COMMAND_FLAG != 0 {
        Some("jump_bottom"@)
    } else if keycode == 125 && flags & SHIFT_FLAG != 0 {
        Some("page_down"@)
    } else if keycode == 126 {
        Some("step_up"@)
    } else if keycode == 125 {
        Some("step_down"@)
    } else if keycode == 49 {
        Some("toggle_follow"@)
    } else {
        None
    }
}

/// The remote scrolling command of a key press, if it is one.
pub fn remote_scroll_action(keycode: u16, flags: u64) -> (r: Option<&'static str>)
    ensures
        match scroll_action_of(keycode, flags) {
            Some(t) => r matches Some(s) && s@ == t,
            None => r is None,
        },
{
    if flags & OPTION_FLAG == 0 {
        return None;
    }
    if keycode == 126 && flags & SHIFT_FLAG != 0 {
        Some("page_up")
    } else if keycode == 125 && flags & COMMAND_FLAG != 0 {
        Some("jump_bottom")
    } else if keycode == 125 && flags & SHIFT_FLAG != 0 {
        Some("page_down")
    } else if keycode == 126 {
        Some("step_up")
    } else if keycode == 125 {
        Some("step_down")
    } else if keycode == 49 {
        Some("toggle_follow")
    } else {
        None
    }
}

/// What a global key press does.
#[derive(Clone, Copy, PartialEq, Eq, Debug)]
pub enum KeyAction {
    /// Nothing: the key passes through.
    Pass,
    /// Broadcast a scrolling command to the remote displays.
    RemoteScroll(&'static str),
    /// Show and focus the main window.
    ShowWindow,
    /// Stop passive capture.
    StopCapture,
    /// Submit the captured input.
    Submit,
    /// Take a screenshot.
    Screenshot,
    /// Delete the last captured character.
    Backspace,
    /// Append text to the captured input.
    Text(&'static str),
}

/// What a key press does: Option shortcuts (remote scrolling, Option-Command-O
/// to show the window, Option-Escape to stop) work whether or not capture is
/// active; while capture is active Return and Enter submit, Option-S takes a
/// screenshot, Delete erases, modifier keys pass, and other keys type their
/// US-layout text.
pub open spec fn key_action_of(keycode: u16, flags: u64, active: bool) -> KeyAction {
    if flags & OPTION_FLAG != 0 && scroll_action_of(keycode, flags) is Some {
        KeyAction::RemoteScroll(arbitrary())
    } else if flags & OPTION_FLAG != 0 && keycode == 31 && flags & COMMAND_FLAG != 0 {
        KeyAction::ShowWindow
    } else if keycode == 53 && flags & OPTION_FLAG != 0 {
        KeyAction::StopCapture
    } else if !active {
        KeyAction::Pass
    } else if keycode == 36 || keycode == 76 {
        KeyAction::Submit
    } else if keycode == 1 && flags & OPTION_FLAG != 0 {
        KeyAction::Screenshot
    } else if keycode == 51 {
        KeyAction::Backspace
    } else if keycode == 50 || keycode == 56 || keycode == 60 {
        KeyAction::Pass
    } else if key_text(keycode, flags & SHIFT_FLAG != 0) is Some {
        KeyAction::Text(arbitrary())
    } else {
        KeyAction::Pass
    }
}

/// The action of a key press matches the table, with the scrolling command
/// and the typed text as the other tables give them.
pub open spec fn is_key_action(a: KeyAction, keycode: u16, flags: u64, active: bool) -> bool {
    match key_action_of(keycode, flags, active) {
        KeyAction::RemoteScroll(_) => a matches KeyAction::RemoteScroll(s) && Some(s@) == scroll_action_of(keycode, flags),
        KeyAction::Text(_) => a matches KeyAction::Text(s) && Some(s@) == key_text(keycode, flags & SHIFT_FLAG != 0),
        other => a == other,
    }
}

/// Decides what a global key press does.
pub fn key_action(keycode: u16, flags: u64, active: bool) -> (a: KeyAction)
    ensures
        is_key_action(a, keycode, flags, active),
{
    if flags & OPTION_FLAG != 0 {
        if let Some(action) = remote_scroll_action(keycode, flags) {
            return KeyAction::RemoteScroll(action);
        }
        if keycode == 31 && flags & COMMAND_FLAG != 0 {
            return KeyAction::ShowWindow;
        }
    }
    if keycode == 53 && flags & OPTION_FLAG != 0 {
        return KeyAction::StopCapture;
    }
    if !active {
        return KeyAction::Pass;
    }
    if keycode == 36 || keycode == 76 {
        KeyAction::Submit
    } else if keycode == 1 && flags & OPTION_FLAG != 0 {
        KeyAction::Screenshot
    } else if keycode == 51 {
        KeyAction::Backspace
    } else if keycode == 50 || keycode == 56 || keycode == 60 {
        KeyAction::Pass
    } else {
        match keycode_text(keycode, flags & SHIFT_FLAG != 0) {
            Some(text) => KeyAction::Text(text),
            None => KeyAction::Pass,
        }
    }
}

/// Whether passive capture is on, and whether the keyboard listener is
/// connected.
#[derive(Clone, Copy, Debug, Default)]
pub struct PassiveInputState {
    pub active: bool,
    pub ready: bool,
}

impl PassiveInputState {
    /// Turns passive capture on or off; returns the new setting.
    pub fn set_passive_capture(&mut self, active: bool) -> (r: bool)
        ensures
            r == active,
            final(self).active == active,
            final(self).ready == old(self).ready,
    {
        self.active = active;
        active
    }

    /// Whether passive capture is on.
    pub fn get_passive_capture(&self) -> (r: bool)
        ensures
            r == self.active,
    {
        self.active
    }

    /// Whether the keyboard listener is connected.
    pub fn get_passive_input_ready(&self) -> (r: bool)
        ensures
            r == self.ready,
    {
        self.ready
    }

    /// Records whether the keyboard listener is connected.
    pub fn set_ready(&mut self, ready: bool)
        ensures
            final(self).ready == ready,
            final(self).active == old(self).active,
    {
        self.ready = ready;
    }
}

} // verus!
