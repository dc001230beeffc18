//! Input events as the viewer sends them, and the key names the host understands.
use vstd::prelude::*;

verus! {

/// A mouse button.
#[derive(Debug, Clone, Copy, PartialEq, Eq, Structural)]
pub enum MouseButton {
    Left,
    Right,
    Middle,
}

/// Modifier keys held with a key event.
#[derive(Debug, Clone, Copy, PartialEq, Eq, Structural, Default)]
pub struct Modifiers {
    pub shift: bool,
    pub ctrl: bool,
    pub alt: bool,
    pub meta: bool,
}

/// A key for the synthetic-input collaborator.
#[derive(Debug, Clone, Copy, PartialEq, Eq, Structural)]
pub enum KeyCode {
    Return,
    Tab,
    Space,
    Escape,
    Backspace,
    UpArrow,
    DownArrow,
    LeftArrow,
    RightArrow,
    /// Any other key, by its first character.
    Unicode(char),
}

/// The key a canonical key name stands for; `None` for an empty name.
pub open spec fn key_for(name: Seq<char>) -> Option<KeyCode> {
    if name == "Return"@ || name == "Enter"@ {
        Some(KeyCode::Return)
    } else if name == "Tab"@ {
        Some(KeyCode::Tab)
    } else if name == "Space"@ || name == " "@ {
        Some(KeyCode::Space)
    } else if name == "Escape"@ {
        Some(KeyCode::Escape)
    } else if name == "BackSpace"@ {
        Some(KeyCode::Backspace)
    } else if name == "Up"@ {
        Some(KeyCode::UpArrow)
    } else if name == "Down"@ {
        Some(KeyCode::DownArrow)
    } else if name == "Left"@ {
        Some(KeyCode::LeftArrow)
    } else if name == "Right"@ {
        Some(KeyCode::RightArrow)
    } else if name.len() > 0 {
        Some(KeyCode::Unicode(name[0]))
    } else {
        None
    }
}

/// Tells whether two strings hold the same characters.
fn same_text(a: &str, b: &str) -> (r: bool)
    ensures
        r == (a@ == b@),
{
    let n = a.unicode_len();
    if n != b.unicode_len() {
        return false;
    }
    let mut i: usize = 0;
    while i < n
        invariant
            i <= n,
            n == a@.len(),
            n == b@.len(),
            a@.subrange(0, i as int) == b@.subrange(0, i as int),
        decreases n - i,
    {
        if a.get_char(i) != b.get_char(i) {
            assert(a@[i as int] != b@[i as int]);
            return false;
        }
        assert(a@.subrange(0, i + 1) =~= a@.subrange(0, i as int).push(a@[i as int]));
        assert(b@.subrange(0, i + 1) =~= b@.subrange(0, i as int).push(b@[i as int]));
        i = i + 1;
    }
    assert(a@ =~= a@.subrange(0, n as int));
    assert(b@ =~= b@.subrange(0, n as int));
    true
}

/// Maps a canonical key name (`"Return"`, `"Escape"`, `"BackSpace"`, `"Tab"`,
/// the arrows, `" "`, or a literal character) to a key.
pub fn key_code(name: &str) -> (r: Option<KeyCode>)
    ensures
        r == key_for(name@),
{
    if same_text(name, "Return") || same_text(name, "Enter") {
        Some(KeyCode::Return)
    } else if same_text(name, "Tab") {
        Some(KeyCode::Tab)
    } else if same_text(name, "Space") || same_text(name, " ") {
        Some(KeyCode::Space)
    } else if same_text(name, "Escape") {
        Some(KeyCode::Escape)
    } else if same_text(name, "BackSpace") {
        Some(KeyCode::Backspace)
    } else if same_text(name, "Up") {
        Some(KeyCode::UpArrow)
    } else if same_text(name, "Down") {
        Some(KeyCode::DownArrow)
    } else if same_text(name, "Left") {
        Some(KeyCode::LeftArrow)
    } else if same_text(name, "Right") {
        Some(KeyCode::RightArrow)
    } else if name.unicode_len() > 0 {
        Some(KeyCode::Unicode(name.get_char(0)))
    } else {
        None
    }
}

} // verus!
