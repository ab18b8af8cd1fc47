//! The exit chord: a configured keyboard shortcut — one key plus a required
//! set of modifier keys — and the matcher that tests live key events against
//! it.
//!
//! A chord string is a run of tokens separated by `+`: modifier names
//! (`cmd`/`command`, `option`/`alt`, `shift`, `ctrl`/`control`, in any case)
//! and exactly one key name, drawn from a fixed table of letters, digits,
//! punctuation, function keys and navigation keys. At least one modifier is
//! required: a bare key can never be a chord. Matching is exact on every
//! modifier: a chord requiring cmd+option matches neither cmd alone nor
//! cmd+option+shift.

use vstd::prelude::*;
use vstd::string::StrSliceExecFns;
use vstd::string::StringExecFns;

verus! {

/// A live key event as the platform reports it: the key's code and the state
/// of the four modifier keys the matcher cares about; any other modifiers the
/// event may carry are ignored and never handed in.
#[derive(Clone, Copy, PartialEq, Eq, Structural, Debug)]
pub struct KeyEvent {
    pub keycode: i64,
    pub cmd: bool,
    pub option: bool,
    pub shift: bool,
    pub ctrl: bool,
}

/// Why a chord string was rejected.
#[derive(Clone, Copy, PartialEq, Eq, Structural, Debug)]
pub enum ChordParseError {
    /// The string was empty.
    EmptyInput,
    /// No token named a key.
    NoKey,
    /// More than one token named a key.
    MultipleKeys,
    /// A token named neither a modifier nor a known key.
    UnknownKey,
    /// No token named a modifier.
    NoModifiers,
}

impl ChordParseError {
    /// A human-readable description of the rejection.
    pub fn message(&self) -> (m: &'static str)
        ensures
            m@ == spec_chord_error_message(*self),
    {
        match self {
            ChordParseError::EmptyInput => "chord cannot be empty",
            ChordParseError::NoKey => "chord names no key",
            ChordParseError::MultipleKeys => "chord names more than one key",
            ChordParseError::UnknownKey => "unknown key name in chord",
            ChordParseError::NoModifiers => "chord requires at least one modifier",
        }
    }
}

/// The description `ChordParseError::message` returns for each rejection.
pub open spec fn spec_chord_error_message(e: ChordParseError) -> Seq<char> {
    match e {
        ChordParseError::EmptyInput => "chord cannot be empty"@,
        ChordParseError::NoKey => "chord names no key"@,
        ChordParseError::MultipleKeys => "chord names more than one key"@,
        ChordParseError::UnknownKey => "unknown key name in chord"@,
        ChordParseError::NoModifiers => "chord requires at least one modifier"@,
    }
}

/// The parsed chord: the required key and the exact set of required
/// modifiers, plus the canonical rendering for status text.
#[derive(Clone, Debug)]
pub struct ChordSpec {
    pub keycode: i64,
    pub cmd: bool,
    pub option: bool,
    pub shift: bool,
    pub ctrl: bool,
    pub display_name: String,
}

/// A chord is well-formed only with at least one required modifier.
pub open spec fn spec_chord_wf(c: ChordSpec) -> bool {
    c.cmd || c.option || c.shift || c.ctrl
}

/// Whether an event matches a chord: the same key, and exact equality on
/// every modifier flag — a modifier the chord does not require must not be
/// pressed.
pub open spec fn spec_chord_matches(c: ChordSpec, ev: KeyEvent) -> bool {
    &&& ev.keycode == c.keycode
    &&& ev.cmd == c.cmd
    &&& ev.option == c.option
    &&& ev.shift == c.shift
    &&& ev.ctrl == c.ctrl
}

/// Matching is exact on modifiers: an event whose modifier set differs from
/// the chord's in any position — an extra modifier held down as much as a
/// required one missing — never matches, whatever its key.
pub proof fn lemma_chord_match_exact_on_modifiers(c: ChordSpec, ev: KeyEvent)
    requires
        ev.cmd != c.cmd || ev.option != c.option || ev.shift != c.shift || ev.ctrl != c.ctrl,
    ensures
        !spec_chord_matches(c, ev),
{
}

/// ASCII lowercasing, character by character; everything but an ASCII
/// capital letter passes through unchanged.
pub open spec fn spec_ascii_lower(c: char) -> char {
    if c == 'A' {
        'a'
    } else if c == 'B' {
        'b'
    } else if c == 'C' {
        'c'
    } else if c == 'D' {
        'd'
    } else if c == 'E' {
        'e'
    } else if c == 'F' {
        'f'
    } else if c == 'G' {
        'g'
    } else if c == 'H' {
        'h'
    } else if c == 'I' {
        'i'
    } else if c == 'J' {
        'j'
    } else if c == 'K' {
        'k'
    } else if c == 'L' {
        'l'
    } else if c == 'M' {
        'm'
    } else if c == 'N' {
        'n'
    } else if c == 'O' {
        'o'
    } else if c == 'P' {
        'p'
    } else if c == 'Q' {
        'q'
    } else if c == 'R' {
        'r'
    } else if c == 'S' {
        's'
    } else if c == 'T' {
        't'
    } else if c == 'U' {
        'u'
    } else if c == 'V' {
        'v'
    } else if c == 'W' {
        'w'
    } else if c == 'X' {
        'x'
    } else if c == 'Y' {
        'y'
    } else if c == 'Z' {
        'z'
    } else {
        c
    }
}

fn ascii_lower(c: char) -> (r: char)
    ensures
        r == spec_ascii_lower(c),
{
    match c {
        'A' => 'a',
        'B' => 'b',
        'C' => 'c',
        'D' => 'd',
        'E' => 'e',
        'F' => 'f',
        'G' => 'g',
        'H' => 'h',
        'I' => 'i',
        'J' => 'j',
        'K' => 'k',
        'L' => 'l',
        'M' => 'm',
        'N' => 'n',
        'O' => 'o',
        'P' => 'p',
        'Q' => 'q',
        'R' => 'r',
        'S' => 's',
        'T' => 't',
        'U' => 'u',
        'V' => 'v',
        'W' => 'w',
        'X' => 'x',
        'Y' => 'y',
        'Z' => 'z',
        _ => c,
    }
}

/// The platform key code for a single-character key name, over letters,
/// digits and punctuation.
pub open spec fn spec_char_key_code(c: char) -> Option<i64> {
    if c == 'a' {
        Some(0)
    } else if c == 'b' {
        Some(11)
    } else if c == 'c' {
        Some(8)
    } else if c == 'd' {
        Some(2)
    } else if c == 'e' {
        Some(14)
    } else if c == 'f' {
        Some(3)
    } else if c == 'g' {
        Some(5)
    } else if c == 'h' {
        Some(4)
    } else if c == 'i' {
        Some(34)
    } else if c == 'j' {
        Some(38)
    } else if c == 'k' {
        Some(40)
    } else if c == 'l' {
        Some(37)
    } else if c == 'm' {
        Some(46)
    } else if c == 'n' {
        Some(45)
    } else if c == 'o' {
        Some(31)
    } else if c == 'p' {
        Some(35)
    } else if c == 'q' {
        Some(12)
    } else if c == 'r' {
        Some(15)
    } else if c == 's' {
        Some(1)
    } else if c == 't' {
        Some(17)
    } else if c == 'u' {
        Some(32)
    } else if c == 'v' {
        Some(9)
    } else if c == 'w' {
        Some(13)
    } else if c == 'x' {
        Some(7)
    } else if c == 'y' {
        Some(16)
    } else if c == 'z' {
        Some(6)
    } else if c == '0' {
        Some(29)
    } else if c == '1' {
        Some(18)
    } else if c == '2' {
        Some(19)
    } else if c == '3' {
        Some(20)
    } else if c == '4' {
        Some(21)
    } else if c == '5' {
        Some(23)
    } else if c == '6' {
        Some(22)
    } else if c == '7' {
        Some(26)
    } else if c == '8' {
        Some(28)
    } else if c == '9' {
        Some(25)
    } else if c == '-' {
        Some(27)
    } else if c == '=' {
        Some(24)
    } else if c == '[' {
        Some(33)
    } else if c == ']' {
        Some(30)
    } else if c == '\\' {
        Some(42)
    } else if c == ';' {
        Some(41)
    } else if c == '\'' {
        Some(39)
    } else if c == ',' {
        Some(43)
    } else if c == '.' {
        Some(47)
    } else if c == '/' {
        Some(44)
    } else if c == '`' {
        Some(50)
    } else {
        None
    }
}

fn char_key_code(c: char) -> (r: Option<i64>)
    ensures
        r == spec_char_key_code(c),
{
    match c {
        'a' => Some(0),
        'b' => Some(11),
        'c' => Some(8),
        'd' => Some(2),
        'e' => Some(14),
        'f' => Some(3),
        'g' => Some(5),
        'h' => Some(4),
        'i' => Some(34),
        'j' => Some(38),
        'k' => Some(40),
        'l' => Some(37),
        'm' => Some(46),
        'n' => Some(45),
        'o' => Some(31),
        'p' => Some(35),
        'q' => Some(12),
        'r' => Some(15),
        's' => Some(1),
        't' => Some(17),
        'u' => Some(32),
        'v' => Some(9),
        'w' => Some(13),
        'x' => Some(7),
        'y' => Some(16),
        'z' => Some(6),
        '0' => Some(29),
        '1' => Some(18),
        '2' => Some(19),
        '3' => Some(20),
        '4' => Some(21),
        '5' => Some(23),
        '6' => Some(22),
        '7' => Some(26),
        '8' => Some(28),
        '9' => Some(25),
        '-' => Some(27),
        '=' => Some(24),
        '[' => Some(33),
        ']' => Some(30),
        '\\' => Some(42),
        ';' => Some(41),
        '\'' => Some(39),
        ',' => Some(43),
        '.' => Some(47),
        '/' => Some(44),
        '`' => Some(50),
        _ => None,
    }
}

/// The platform key code for a lowercased key-name token: single characters
/// through the character table, named keys — function keys, whitespace keys
/// and navigation keys — by name. `None` for anything else: an unmapped name
/// is a parse error, never a silent default.
pub open spec fn spec_key_code(tok: Seq<char>) -> Option<i64> {
    if tok.len() == 1 {
        spec_char_key_code(tok[0])
    } else if tok == "f1"@ {
        Some(122)
    } else if tok == "f2"@ {
        Some(120)
    } else if tok == "f3"@ {
        Some(99)
    } else if tok == "f4"@ {
        Some(118)
    } else if tok == "f5"@ {
        Some(96)
    } else if tok == "f6"@ {
        Some(97)
    } else if tok == "f7"@ {
        Some(98)
    } else if tok == "f8"@ {
        Some(100)
    } else if tok == "f9"@ {
        Some(101)
    } else if tok == "f10"@ {
        Some(109)
    } else if tok == "f11"@ {
        Some(103)
    } else if tok == "f12"@ {
        Some(111)
    } else if tok == "space"@ {
        Some(49)
    } else if tok == "tab"@ {
        Some(48)
    } else if tok == "return"@ || tok == "enter"@ {
        Some(36)
    } else if tok == "esc"@ || tok == "escape"@ {
        Some(53)
    } else if tok == "delete"@ || tok == "backspace"@ {
        Some(51)
    } else if tok == "left"@ {
        Some(123)
    } else if tok == "right"@ {
        Some(124)
    } else if tok == "up"@ {
        Some(126)
    } else if tok == "down"@ {
        Some(125)
    } else if tok == "home"@ {
        Some(115)
    } else if tok == "end"@ {
        Some(119)
    } else if tok == "pageup"@ {
        Some(116)
    } else if tok == "pagedown"@ {
        Some(121)
    } else {
        None
    }
}

/// Whether a token's characters spell exactly the given name.
fn token_eq(tok: &Vec<char>, name: &str) -> (r: bool)
    ensures
        r == (tok@ == name@),
{
    let name_len: usize = name.unicode_len();
    if tok.len() != name_len {
        return false;
    }
    let mut j: usize = 0;
    while j < name_len
        invariant
            j <= name_len,
            name_len == name@.len(),
            tok@.len() == name_len,
            forall|k: int| 0 <= k < j ==> tok@[k] == name@[k],
        decreases name_len - j,
    {
        if tok[j] != name.get_char(j) {
            return false;
        }
        j = j + 1;
    }
    proof {
        assert(tok@ =~= name@);
    }
    true
}

fn key_code_for_token(tok: &Vec<char>) -> (r: Option<i64>)
    ensures
        r == spec_key_code(tok@),
{
    if tok.len() == 1 {
        char_key_code(tok[0])
    } else if token_eq(tok, "f1") {
        Some(122)
    } else if token_eq(tok, "f2") {
        Some(120)
    } else if token_eq(tok, "f3") {
        Some(99)
    } else if token_eq(tok, "f4") {
        Some(118)
    } else if token_eq(tok, "f5") {
        Some(96)
    } else if token_eq(tok, "f6") {
        Some(97)
    } else if token_eq(tok, "f7") {
        Some(98)
    } else if token_eq(tok, "f8") {
        Some(100)
    } else if token_eq(tok, "f9") {
        Some(101)
    } else if token_eq(tok, "f10") {
        Some(109)
    } else if token_eq(tok, "f11") {
        Some(103)
    } else if token_eq(tok, "f12") {
        Some(111)
    } else if token_eq(tok, "space") {
        Some(49)
    } else if token_eq(tok, "tab") {
        Some(48)
    } else if token_eq(tok, "return") || token_eq(tok, "enter") {
        Some(36)
    } else if token_eq(tok, "esc") || token_eq(tok, "escape") {
        Some(53)
    } else if token_eq(tok, "delete") || token_eq(tok, "backspace") {
        Some(51)
    } else if token_eq(tok, "left") {
        Some(123)
    } else if token_eq(tok, "right") {
        Some(124)
    } else if token_eq(tok, "up") {
        Some(126)
    } else if token_eq(tok, "down") {
        Some(125)
    } else if token_eq(tok, "home") {
        Some(115)
    } else if token_eq(tok, "end") {
        Some(119)
    } else if token_eq(tok, "pageup") {
        Some(116)
    } else if token_eq(tok, "pagedown") {
        Some(121)
    } else {
        None
    }
}

/// The canonical name of a mapped key, for the chord's display string.
pub open spec fn spec_key_name(code: i64) -> Seq<char> {
    if code == 0 {
        "A"@
    } else if code == 11 {
        "B"@
    } else if code == 8 {
        "C"@
    } else if code == 2 {
        "D"@
    } else if code == 14 {
        "E"@
    } else if code == 3 {
        "F"@
    } else if code == 5 {
        "G"@
    } else if code == 4 {
        "H"@
    } else if code == 34 {
        "I"@
    } else if code == 38 {
        "J"@
    } else if code == 40 {
        "K"@
    } else if code == 37 {
        "L"@
    } else if code == 46 {
        "M"@
    } else if code == 45 {
        "N"@
    } else if code == 31 {
        "O"@
    } else if code == 35 {
        "P"@
    } else if code == 12 {
        "Q"@
    } else if code == 15 {
        "R"@
    } else if code == 1 {
        "S"@
    } else if code == 17 {
        "T"@
    } else if code == 32 {
        "U"@
    } else if code == 9 {
        "V"@
    } else if code == 13 {
        "W"@
    } else if code == 7 {
        "X"@
    } else if code == 16 {
        "Y"@
    } else if code == 6 {
        "Z"@
    } else if code == 29 {
        "0"@
    } else if code == 18 {
        "1"@
    } else if code == 19 {
        "2"@
    } else if code == 20 {
        "3"@
    } else if code == 21 {
        "4"@
    } else if code == 23 {
        "5"@
    } else if code == 22 {
        "6"@
    } else if code == 26 {
        "7"@
    } else if code == 28 {
        "8"@
    } else if code == 25 {
        "9"@
    } else if code == 27 {
        "-"@
    } else if code == 24 {
        "="@
    } else if code == 33 {
        "["@
    } else if code == 30 {
        "]"@
    } else if code == 42 {
        "\\"@
    } else if code == 41 {
        ";"@
    } else if code == 39 {
        "'"@
    } else if code == 43 {
        ","@
    } else if code == 47 {
        "."@
    } else if code == 44 {
        "/"@
    } else if code == 50 {
        "`"@
    } else if code == 122 {
        "F1"@
    } else if code == 120 {
        "F2"@
    } else if code == 99 {
        "F3"@
    } else if code == 118 {
        "F4"@
    } else if code == 96 {
        "F5"@
    } else if code == 97 {
        "F6"@
    } else if code == 98 {
        "F7"@
    } else if code == 100 {
        "F8"@
    } else if code == 101 {
        "F9"@
    } else if code == 109 {
        "F10"@
    } else if code == 103 {
        "F11"@
    } else if code == 111 {
        "F12"@
    } else if code == 49 {
        "Space"@
    } else if code == 48 {
        "Tab"@
    } else if code == 36 {
        "Return"@
    } else if code == 53 {
        "Esc"@
    } else if code == 51 {
        "Delete"@
    } else if code == 123 {
        "Left"@
    } else if code == 124 {
        "Right"@
    } else if code == 126 {
        "Up"@
    } else if code == 125 {
        "Down"@
    } else if code == 115 {
        "Home"@
    } else if code == 119 {
        "End"@
    } else if code == 116 {
        "PageUp"@
    } else if code == 121 {
        "PageDown"@
    } else {
        "?"@
    }
}

fn key_name(code: i64) -> (r: &'static str)
    ensures
        r@ == spec_key_name(code),
{
    if code == 0 {
        "A"
    } else if code == 11 {
        "B"
    } else if code == 8 {
        "C"
    } else if code == 2 {
        "D"
    } else if code == 14 {
        "E"
    } else if code == 3 {
        "F"
    } else if code == 5 {
        "G"
    } else if code == 4 {
        "H"
    } else if code == 34 {
        "I"
    } else if code == 38 {
        "J"
    } else if code == 40 {
        "K"
    } else if code == 37 {
        "L"
    } else if code == 46 {
        "M"
    } else if code == 45 {
        "N"
    } else if code == 31 {
        "O"
    } else if code == 35 {
        "P"
    } else if code == 12 {
        "Q"
    } else if code == 15 {
        "R"
    } else if code == 1 {
        "S"
    } else if code == 17 {
        "T"
    } else if code == 32 {
        "U"
    } else if code == 9 {
        "V"
    } else if code == 13 {
        "W"
    } else if code == 7 {
        "X"
    } else if code == 16 {
        "Y"
    } else if code == 6 {
        "Z"
    } else if code == 29 {
        "0"
    } else if code == 18 {
        "1"
    } else if code == 19 {
        "2"
    } else if code == 20 {
        "3"
    } else if code == 21 {
        "4"
    } else if code == 23 {
        "5"
    } else if code == 22 {
        "6"
    } else if code == 26 {
        "7"
    } else if code == 28 {
        "8"
    } else if code == 25 {
        "9"
    } else if code == 27 {
        "-"
    } else if code == 24 {
        "="
    } else if code == 33 {
        "["
    } else if code == 30 {
        "]"
    } else if code == 42 {
        "\\"
    } else if code == 41 {
        ";"
    } else if code == 39 {
        "'"
    } else if code == 43 {
        ","
    } else if code == 47 {
        "."
    } else if code == 44 {
        "/"
    } else if code == 50 {
        "`"
    } else if code == 122 {
        "F1"
    } else if code == 120 {
        "F2"
    } else if code == 99 {
        "F3"
    } else if code == 118 {
        "F4"
    } else if code == 96 {
        "F5"
    } else if code == 97 {
        "F6"
    } else if code == 98 {
        "F7"
    } else if code == 100 {
        "F8"
    } else if code == 101 {
        "F9"
    } else if code == 109 {
        "F10"
    } else if code == 103 {
        "F11"
    } else if code == 111 {
        "F12"
    } else if code == 49 {
        "Space"
    } else if code == 48 {
        "Tab"
    } else if code == 36 {
        "Return"
    } else if code == 53 {
        "Esc"
    } else if code == 51 {
        "Delete"
    } else if code == 123 {
        "Left"
    } else if code == 124 {
        "Right"
    } else if code == 126 {
        "Up"
    } else if code == 125 {
        "Down"
    } else if code == 115 {
        "Home"
    } else if code == 119 {
        "End"
    } else if code == 116 {
        "PageUp"
    } else if code == 121 {
        "PageDown"
    } else {
        "?"
    }
}

/// What the tokens read so far have established: which modifiers were named,
/// and the key, once one was.
#[derive(Clone, Copy, Debug)]
pub struct ChordAccum {
    pub cmd: bool,
    pub option: bool,
    pub shift: bool,
    pub ctrl: bool,
    pub key: Option<i64>,
}

/// The accumulator before any token: no modifiers, no key.
pub open spec fn spec_chord_accum_init() -> ChordAccum {
    ChordAccum { cmd: false, option: false, shift: false, ctrl: false, key: None }
}

/// Fold one lowercased token into the accumulator: a modifier name sets its
/// flag, a known key name becomes the key — a second one is an error — and
/// any other token is an unknown key name.
pub open spec fn spec_apply_token(acc: ChordAccum, tok: Seq<char>) -> Result<
    ChordAccum,
    ChordParseError,
> {
    if tok == "cmd"@ || tok == "command"@ {
        Ok(ChordAccum { cmd: true, ..acc })
    } else if tok == "option"@ || tok == "alt"@ {
        Ok(ChordAccum { option: true, ..acc })
    } else if tok == "shift"@ {
        Ok(ChordAccum { shift: true, ..acc })
    } else if tok == "ctrl"@ || tok == "control"@ {
        Ok(ChordAccum { ctrl: true, ..acc })
    } else {
        match spec_key_code(tok) {
            Some(code) => if acc.key is Some {
                Err(ChordParseError::MultipleKeys)
            } else {
                Ok(ChordAccum { key: Some(code), ..acc })
            },
            None => Err(ChordParseError::UnknownKey),
        }
    }
}

fn apply_token(acc: ChordAccum, tok: &Vec<char>) -> (r: Result<ChordAccum, ChordParseError>)
    ensures
        r == spec_apply_token(acc, tok@),
{
    if token_eq(tok, "cmd") || token_eq(tok, "command") {
        Ok(ChordAccum { cmd: true, ..acc })
    } else if token_eq(tok, "option") || token_eq(tok, "alt") {
        Ok(ChordAccum { option: true, ..acc })
    } else if token_eq(tok, "shift") {
        Ok(ChordAccum { shift: true, ..acc })
    } else if token_eq(tok, "ctrl") || token_eq(tok, "control") {
        Ok(ChordAccum { ctrl: true, ..acc })
    } else {
        match key_code_for_token(tok) {
            Some(code) => if acc.key.is_some() {
                Err(ChordParseError::MultipleKeys)
            } else {
                Ok(ChordAccum { key: Some(code), ..acc })
            },
            None => Err(ChordParseError::UnknownKey),
        }
    }
}

/// Fold the last token in and apply the final checks: a key must have been
/// named, and at least one modifier.
pub open spec fn spec_finish_chord(acc: ChordAccum, tok: Seq<char>) -> Result<
    ChordAccum,
    ChordParseError,
> {
    match spec_apply_token(acc, tok) {
        Err(e) => Err(e),
        Ok(done) => if done.key is None {
            Err(ChordParseError::NoKey)
        } else if !(done.cmd || done.option || done.shift || done.ctrl) {
            Err(ChordParseError::NoModifiers)
        } else {
            Ok(done)
        },
    }
}

/// One pass over the chord string from position `i`, lowercasing as it goes:
/// `tok` is the token being gathered, `acc` what the finished tokens
/// established; `+` closes a token.
pub open spec fn spec_chord_loop(s: Seq<char>, i: int, tok: Seq<char>, acc: ChordAccum) -> Result<
    ChordAccum,
    ChordParseError,
>
    decreases s.len() - i,
{
    if !(0 <= i < s.len()) {
        spec_finish_chord(acc, tok)
    } else if s[i] == '+' {
        match spec_apply_token(acc, tok) {
            Err(e) => Err(e),
            Ok(next) => spec_chord_loop(s, i + 1, Seq::empty(), next),
        }
    } else {
        spec_chord_loop(s, i + 1, tok.push(spec_ascii_lower(s[i])), acc)
    }
}

/// What parsing a chord string establishes: the modifier set and key, or a
/// distinct rejection.
pub open spec fn spec_parse_chord(s: Seq<char>) -> Result<ChordAccum, ChordParseError> {
    if s.len() == 0 {
        Err(ChordParseError::EmptyInput)
    } else {
        spec_chord_loop(s, 0, Seq::empty(), spec_chord_accum_init())
    }
}

/// The canonical display string of a parsed chord: the required modifiers in
/// a fixed order, then the key's canonical name, joined by `+`.
pub open spec fn spec_chord_display(acc: ChordAccum) -> Seq<char>
    recommends
        acc.key is Some,
{
    (if acc.cmd {
        "Cmd+"@
    } else {
        Seq::empty()
    }) + (if acc.option {
        "Option+"@
    } else {
        Seq::empty()
    }) + (if acc.shift {
        "Shift+"@
    } else {
        Seq::empty()
    }) + (if acc.ctrl {
        "Ctrl+"@
    } else {
        Seq::empty()
    }) + spec_key_name(acc.key->Some_0)
}

/// The configured chord matcher: tests live key events against one parsed
/// chord.
#[derive(Clone, Debug)]
pub struct ChordMatcher {
    pub chord: ChordSpec,
}

impl ChordMatcher {
    /// Parse a chord string such as `Cmd+Option+U`: tokens separated by `+`,
    /// each a modifier name or the one key name, case-insensitively. Errors,
    /// each distinct: an empty string, a token that names nothing known, a
    /// second key token, no key token, no modifier token.
    pub fn parse(s: &str) -> (r: Result<ChordMatcher, ChordParseError>)
        ensures
            (r is Ok) == (spec_parse_chord(s@) is Ok),
            r matches Err(e) ==> spec_parse_chord(s@) == Err::<ChordAccum, ChordParseError>(e),
            r matches Ok(matcher) ==> ({
                let acc = spec_parse_chord(s@)->Ok_0;
                &&& matcher.chord.cmd == acc.cmd
                &&& matcher.chord.option == acc.option
                &&& matcher.chord.shift == acc.shift
                &&& matcher.chord.ctrl == acc.ctrl
                &&& acc.key == Some(matcher.chord.keycode)
                &&& matcher.chord.display_name@ == spec_chord_display(acc)
                &&& spec_chord_wf(matcher.chord)
            }),
    {
        let n: usize = s.unicode_len();
        if n == 0 {
            return Err(ChordParseError::EmptyInput);
        }
        let mut tok: Vec<char> = Vec::new();
        let mut acc = ChordAccum { cmd: false, option: false, shift: false, ctrl: false, key: None };
        let mut i: usize = 0;
        while i < n
            invariant
                i <= n,
                n == s@.len(),
                n > 0,
                spec_chord_loop(s@, 0, Seq::empty(), spec_chord_accum_init()) == spec_chord_loop(
                    s@,
                    i as int,
                    tok@,
                    acc,
                ),
            decreases n - i,
        {
            let c = s.get_char(i);
            if c == '+' {
                match apply_token(acc, &tok) {
                    Ok(next) => {
                        acc = next;
                        tok.clear();
                    },
                    Err(e) => {
                        return Err(e);
                    },
                }
            } else {
                tok.push(ascii_lower(c));
            }
            i = i + 1;
        }
        let done = match apply_token(acc, &tok) {
            Ok(done) => done,
            Err(e) => {
                return Err(e);
            },
        };
        let keycode = match done.key {
            Some(code) => code,
            None => {
                return Err(ChordParseError::NoKey);
            },
        };
        if !(done.cmd || done.option || done.shift || done.ctrl) {
            return Err(ChordParseError::NoModifiers);
        }
        let mut display = String::new();
        if done.cmd {
            display.append("Cmd+");
        }
        if done.option {
            display.append("Option+");
        }
        if done.shift {
            display.append("Shift+");
        }
        if done.ctrl {
            display.append("Ctrl+");
        }
        display.append(key_name(keycode));
        proof {
            assert(display@ =~= spec_chord_display(done));
        }
        Ok(
            ChordMatcher {
                chord: ChordSpec {
                    keycode,
                    cmd: done.cmd,
                    option: done.option,
                    shift: done.shift,
                    ctrl: done.ctrl,
                    display_name: display,
                },
            },
        )
    }

    /// Whether the event presses exactly this chord: the same key, and each
    /// of the four modifiers pressed exactly when the chord requires it.
    pub fn matches(&self, ev: &KeyEvent) -> (m: bool)
        ensures
            m == spec_chord_matches(self.chord, *ev),
    {
        ev.keycode == self.chord.keycode && ev.cmd == self.chord.cmd && ev.option
            == self.chord.option && ev.shift == self.chord.shift && ev.ctrl == self.chord.ctrl
    }

    /// The chord's canonical rendering, for status text.
    pub fn display_name(&self) -> (d: &str)
        ensures
            d@ == self.chord.display_name@,
    {
        self.chord.display_name.as_str()
    }
}

} // verus!
