//! Logical keys and key sequences.
//!
//! A key is a printable character or a named key together with a
//! control-modifier flag; equality is structural. Shortcut sequences are
//! ordered lists of keys.

use vstd::prelude::*;
use vstd::string::*;

use crate::text::push_char;

verus! {

/// A logical key without modifier: a printable character or a named key.
#[derive(Clone, Copy, Debug, PartialEq, Eq, Structural)]
pub enum BaseKey {
    Backspace,
    Char(char),
    Delete,
    Down,
    End,
    Enter,
    Escape,
    Home,
    Left,
    PageDown,
    PageUp,
    Right,
    Space,
    Tab,
    ShiftTab,
    Up,
}

/// A pressed key: a logical key plus whether control was held.
#[derive(Clone, Copy, Debug, PartialEq, Eq, Structural)]
pub struct Key {
    pub base: BaseKey,
    pub control: bool,
}

/// Whether `a` is a (possibly equal) prefix of `b`.
pub open spec fn is_prefix_of(a: Seq<Key>, b: Seq<Key>) -> bool {
    a.len() <= b.len() && b.subrange(0, a.len() as int) == a
}

/// Compare two key sequences for structural equality.
pub fn keys_eq(a: &[Key], b: &[Key]) -> (r: bool)
    ensures
        r == (a@ == b@),
{
    if a.len() != b.len() {
        return false;
    }
    let mut i: usize = 0;
    while i < a.len()
        invariant
            i <= a@.len(),
            a@.len() == b@.len(),
            forall|j: int| 0 <= j < i ==> a@[j] == b@[j],
        decreases a@.len() - i,
    {
        if a[i] != b[i] {
            return false;
        }
        i += 1;
    }
    proof {
        assert(a@ =~= b@);
    }
    true
}

/// Check whether `a` is a (possibly equal) prefix of `b`.
pub fn keys_prefix(a: &[Key], b: &[Key]) -> (r: bool)
    ensures
        r == is_prefix_of(a@, b@),
{
    if a.len() > b.len() {
        return false;
    }
    let mut i: usize = 0;
    while i < a.len()
        invariant
            i <= a@.len(),
            a@.len() <= b@.len(),
            forall|j: int| 0 <= j < i ==> a@[j] == b@[j],
        decreases a@.len() - i,
    {
        if a[i] != b[i] {
            proof {
                assert(b@.subrange(0, a@.len() as int)[i as int] == b@[i as int]);
            }
            return false;
        }
        i += 1;
    }
    proof {
        assert(b@.subrange(0, a@.len() as int) =~= a@);
    }
    true
}

/// The display name of a logical key, without angle brackets or prefix.
pub open spec fn base_key_inner(b: BaseKey) -> Seq<char> {
    match b {
        BaseKey::Backspace => "Backspace"@,
        BaseKey::Char(c) => seq![c],
        BaseKey::Delete => "Delete"@,
        BaseKey::Down => "Down"@,
        BaseKey::End => "End"@,
        BaseKey::Enter => "Enter"@,
        BaseKey::Escape => "Esc"@,
        BaseKey::Home => "Home"@,
        BaseKey::Left => "Left"@,
        BaseKey::PageDown => "PageDown"@,
        BaseKey::PageUp => "PageUp"@,
        BaseKey::Right => "Right"@,
        BaseKey::Space => "Space"@,
        BaseKey::Tab => "Tab"@,
        BaseKey::ShiftTab => "S-Tab"@,
        BaseKey::Up => "Up"@,
    }
}

/// The display name of a pressed key: a bare character for a plain printable
/// key, otherwise the inner name wrapped in angle brackets, with a `C-`
/// prefix when control is held.
pub open spec fn key_name(k: Key) -> Seq<char> {
    if k.control {
        "<C-"@ + base_key_inner(k.base) + ">"@
    } else {
        match k.base {
            BaseKey::Char(c) => seq![c],
            _ => "<"@ + base_key_inner(k.base) + ">"@,
        }
    }
}

/// The display string of a key sequence: the key names, joined.
pub open spec fn keys_string(s: Seq<Key>) -> Seq<char>
    decreases s.len(),
{
    if s.len() == 0 {
        Seq::empty()
    } else {
        keys_string(s.drop_last()) + key_name(s.last())
    }
}

fn push_base_inner(s: &mut String, b: BaseKey)
    ensures
        final(s)@ == old(s)@ + base_key_inner(b),
{
    match b {
        BaseKey::Backspace => s.append("Backspace"),
        BaseKey::Char(c) => {
            push_char(s, c);
            proof {
                assert(old(s)@.push(c) =~= old(s)@ + seq![c]);
            }
        },
        BaseKey::Delete => s.append("Delete"),
        BaseKey::Down => s.append("Down"),
        BaseKey::End => s.append("End"),
        BaseKey::Enter => s.append("Enter"),
        BaseKey::Escape => s.append("Esc"),
        BaseKey::Home => s.append("Home"),
        BaseKey::Left => s.append("Left"),
        BaseKey::PageDown => s.append("PageDown"),
        BaseKey::PageUp => s.append("PageUp"),
        BaseKey::Right => s.append("Right"),
        BaseKey::Space => s.append("Space"),
        BaseKey::Tab => s.append("Tab"),
        BaseKey::ShiftTab => s.append("S-Tab"),
        BaseKey::Up => s.append("Up"),
    }
}

fn push_key_name(s: &mut String, k: Key)
    ensures
        final(s)@ == old(s)@ + key_name(k),
{
    if k.control {
        s.append("<C-");
        push_base_inner(s, k.base);
        s.append(">");
        proof {
            assert(final(s)@ =~= old(s)@ + ("<C-"@ + base_key_inner(k.base) + ">"@));
        }
    } else {
        match k.base {
            BaseKey::Char(c) => {
                push_char(s, c);
                proof {
                    assert(old(s)@.push(c) =~= old(s)@ + seq![c]);
                }
            },
            _ => {
                s.append("<");
                push_base_inner(s, k.base);
                s.append(">");
                proof {
                    assert(final(s)@ =~= old(s)@ + ("<"@ + base_key_inner(k.base) + ">"@));
                }
            },
        }
    }
}

/// Convert a shortcut of keys to a `String`.
pub fn shortcut_to_string(keys: &[Key]) -> (r: String)
    ensures
        r@ == keys_string(keys@),
{
    let mut r = String::new();
    let mut i: usize = 0;
    while i < keys.len()
        invariant
            i <= keys@.len(),
            r@ == keys_string(keys@.take(i as int)),
        decreases keys@.len() - i,
    {
        push_key_name(&mut r, keys[i]);
        proof {
            assert(keys@.take(i + 1 as int).drop_last() =~= keys@.take(i as int));
            assert(keys@.take(i + 1 as int).last() == keys@[i as int]);
        }
        i += 1;
    }
    proof {
        assert(keys@.take(keys@.len() as int) =~= keys@);
    }
    r
}

} // verus!
