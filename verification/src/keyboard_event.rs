//! Key presses, and how they are shown to the user.

use vstd::prelude::*;
use vstd::string::*;

use crate::text::{concat2, decimal, join, join_strings, owned, to_decimal};

verus! {

/// A key of the keyboard, as the line editor reports it.
#[derive(Clone, Copy, Debug, PartialEq, Eq, Structural)]
pub enum KeyCode {
    UnknownEscSeq,
    Backspace,
    BackTab,
    BracketedPasteStart,
    BracketedPasteEnd,
    Char(char),
    Delete,
    Down,
    End,
    Enter,
    Esc,
    F(u8),
    Home,
    Insert,
    Left,
    Null,
    PageDown,
    PageUp,
    Right,
    Tab,
    Up,
}

/// The modifier keys held with a key: a set of bits.
#[derive(Clone, Copy, Debug, PartialEq, Eq, Structural)]
pub struct Modifiers(pub u8);

/// No modifier held.
pub const NO_MODIFIER: u8 = 0;

/// The bit of the shift key.
pub const SHIFT_MODIFIER: u8 = 2;

/// The bit of the alt (or escape) key.
pub const ALT_MODIFIER: u8 = 4;

/// The bit of the control key.
pub const CTRL_MODIFIER: u8 = 8;

/// A key press: the key and the modifiers held with it.
#[derive(Clone, Copy, Debug, PartialEq, Eq, Structural)]
pub struct KeyEvent(pub KeyCode, pub Modifiers);

/// A character in upper case where it is an ASCII lower case letter.
pub open spec fn ascii_upper(c: char) -> char {
    if 97 <= (c as u32) <= 122 {
        ((c as u32) - 32) as char
    } else {
        c
    }
}

/// What `char::to_uppercase` gives of a character, as a string.
pub uninterp spec fn uppercase_of(c: char) -> Seq<char>;

/// `char::to_uppercase`, its characters collected into a string: for an
/// ASCII character, its ASCII upper case (a letter's capital, any other
/// character itself).
#[verifier::external_body]
fn char_to_uppercase(c: char) -> (r: String)
    ensures
        r@ == uppercase_of(c),
        (c as u32) < 128 ==> r@ == seq![ascii_upper(c)],
{
    c.to_uppercase().collect()
}

/// The keys that have a name to show.
pub open spec fn has_key_name(code: KeyCode) -> bool {
    !(code is UnknownEscSeq || code is BackTab || code is BracketedPasteStart
        || code is BracketedPasteEnd || code is Null)
}

/// The name of a key.
pub open spec fn key_name(code: KeyCode) -> Seq<char> {
    match code {
        KeyCode::Backspace => "⌫"@,
        KeyCode::Char(c) => uppercase_of(c),
        KeyCode::Delete => "Del"@,
        KeyCode::Down => "Down"@,
        KeyCode::End => "End"@,
        KeyCode::Enter => "Enter"@,
        KeyCode::Esc => "Esc"@,
        KeyCode::F(n) => "F"@ + decimal(n as nat),
        KeyCode::Home => "Home"@,
        KeyCode::Insert => "Insert"@,
        KeyCode::Left => "Left"@,
        KeyCode::PageDown => "Page Down"@,
        KeyCode::PageUp => "Page Up"@,
        KeyCode::Right => "Right"@,
        KeyCode::Tab => "Tab"@,
        KeyCode::Up => "Up"@,
        _ => Seq::empty(),
    }
}

/// The name of a key.
pub fn keycode_to_string(keycode: KeyCode) -> (r: String)
    requires
        has_key_name(keycode),
    ensures
        r@ == key_name(keycode),
{
    match keycode {
        KeyCode::Backspace => owned("⌫"),
        KeyCode::Char(c) => char_to_uppercase(c),
        KeyCode::Delete => owned("Del"),
        KeyCode::Down => owned("Down"),
        KeyCode::End => owned("End"),
        KeyCode::Enter => owned("Enter"),
        KeyCode::Esc => owned("Esc"),
        KeyCode::F(num) => {
            let n = to_decimal(num as usize);
            concat2("F", n.as_str())
        },
        KeyCode::Home => owned("Home"),
        KeyCode::Insert => owned("Insert"),
        KeyCode::Left => owned("Left"),
        KeyCode::PageDown => owned("Page Down"),
        KeyCode::PageUp => owned("Page Up"),
        KeyCode::Right => owned("Right"),
        KeyCode::Tab => owned("Tab"),
        KeyCode::Up => owned("Up"),
        _ => owned(""),
    }
}

/// The modifiers held, by name, in the order control, alt, shift.
pub open spec fn modifier_names(m: u8) -> Seq<Seq<char>> {
    (if m & 8 == 8 {
        seq!["Ctrl"@]
    } else {
        Seq::empty()
    }) + (if m & 4 == 4 {
        seq!["Alt"@]
    } else {
        Seq::empty()
    }) + (if m & 2 == 2 {
        seq!["Shift"@]
    } else {
        Seq::empty()
    })
}

/// How a key press is shown: the modifiers held, then the key, joined by `+`.
pub open spec fn key_event_text(event: KeyEvent) -> Seq<char> {
    join(modifier_names((event.1).0).push(key_name(event.0)), "+"@)
}

/// Shows a key press, such as `Ctrl+C`.
pub fn keyevent_to_string(event: KeyEvent) -> (r: String)
    requires
        has_key_name(event.0),
    ensures
        r@ == key_event_text(event),
{
    let bits = (event.1).0;
    let mut parts: Vec<String> = Vec::new();
    if bits & 8 == 8 {
        parts.push(owned("Ctrl"));
    }
    if bits & 4 == 4 {
        parts.push(owned("Alt"));
    }
    if bits & 2 == 2 {
        parts.push(owned("Shift"));
    }
    parts.push(keycode_to_string(event.0));
    let r = join_strings(&parts, "+");
    proof {
        assert(parts@.map_values(|s: String| s@) =~= modifier_names(bits).push(key_name(event.0)));
    }
    r
}

} // verus!

verus! {

/// Among the keys that are not characters, the arrow keys are shown by their
/// own direction, and no other key is shown by a direction: `Left` names the
/// left arrow only, `Right` the right arrow only, and likewise `Up` and `Down`.
/// The other named keys are shown by their own names, each naming that key
/// only.
pub proof fn lemma_key_names(k: KeyCode)
    requires
        has_key_name(k),
        !(k is Char),
    ensures
        key_name(k) == "Left"@ <==> k is Left,
        key_name(k) == "Right"@ <==> k is Right,
        key_name(k) == "Up"@ <==> k is Up,
        key_name(k) == "Down"@ <==> k is Down,
        key_name(k) == "Home"@ <==> k is Home,
        key_name(k) == "End"@ <==> k is End,
        key_name(k) == "Page Up"@ <==> k is PageUp,
        key_name(k) == "Page Down"@ <==> k is PageDown,
        key_name(k) == "Insert"@ <==> k is Insert,
        key_name(k) == "Del"@ <==> k is Delete,
        key_name(k) == "Enter"@ <==> k is Enter,
        key_name(k) == "Esc"@ <==> k is Esc,
        key_name(k) == "Tab"@ <==> k is Tab,
        key_name(k) == "⌫"@ <==> k is Backspace,
        k matches KeyCode::F(n) ==> key_name(k) == "F"@ + decimal(n as nat),
{
    reveal_strlit("Left");
    reveal_strlit("Right");
    reveal_strlit("Up");
    reveal_strlit("Down");
    reveal_strlit("⌫");
    reveal_strlit("Del");
    reveal_strlit("End");
    reveal_strlit("Enter");
    reveal_strlit("Esc");
    reveal_strlit("F");
    reveal_strlit("Home");
    reveal_strlit("Insert");
    reveal_strlit("Page Down");
    reveal_strlit("Page Up");
    reveal_strlit("Tab");
    assert("Left"@.len() == 4 && "Left"@[0] == 'L');
    assert("Right"@.len() == 5 && "Right"@[0] == 'R');
    assert("Up"@.len() == 2 && "Up"@[0] == 'U');
    assert("Down"@.len() == 4 && "Down"@[0] == 'D');
    assert("Home"@.len() == 4 && "Home"@[0] == 'H');
    assert("End"@.len() == 3 && "End"@[0] == 'E' && "End"@[1] == 'n');
    assert("Esc"@.len() == 3 && "Esc"@[0] == 'E' && "Esc"@[1] == 's');
    assert("Del"@.len() == 3 && "Del"@[0] == 'D');
    assert("Tab"@.len() == 3 && "Tab"@[0] == 'T');
    assert("Enter"@.len() == 5 && "Enter"@[0] == 'E');
    assert("Insert"@.len() == 6);
    assert("Page Up"@.len() == 7);
    assert("Page Down"@.len() == 9);
    assert("⌫"@.len() == 1);
    if k is F {
        assert(key_name(k)[0] == 'F');
    }
}

/// A key pressed with the control key is shown as `Ctrl+` and the key's name.
pub proof fn lemma_ctrl_key_text(k: KeyCode)
    ensures
        key_event_text(KeyEvent(k, Modifiers(CTRL_MODIFIER))) == "Ctrl+"@ + key_name(k),
{
    reveal_strlit("Ctrl+");
    reveal_strlit("Ctrl");
    reveal_strlit("+");
    let m: u8 = 8;
    assert(m & 8 == 8 && m & 4 != 4 && m & 2 != 2) by (bit_vector)
        requires
            m == 8,
    ;
    let names = modifier_names(m).push(key_name(k));
    assert(modifier_names(m) =~= seq!["Ctrl"@]);
    assert(names =~= seq!["Ctrl"@, key_name(k)]);
    assert(names.drop_last() =~= seq!["Ctrl"@]);
    assert(join(names, "+"@) == join(seq!["Ctrl"@], "+"@) + "+"@ + key_name(k));
    assert(join(names, "+"@) =~= "Ctrl+"@ + key_name(k));
}

} // verus!
