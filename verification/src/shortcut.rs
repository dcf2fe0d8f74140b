//! The key combination that asks for a rebuild.
//!
//! The host's key grammar is not restated here: a combination is held as the
//! text in which the host displays it, which is also the text a binding in
//! its configuration names it by.

use std::str::FromStr;
use vstd::prelude::*;
use zellij_tile::prelude::{BareKey, KeyModifier, KeyWithModifier};
use crate::host::text_of;
use crate::path_resolver::chars_of;

verus! {

/// The display text of the key combination that the host reads out of
/// `spec`, or nothing where the host does not take `spec` for one.
pub uninterp spec fn parsed_key_text(spec: Seq<char>) -> Option<Seq<char>>;

/// `KeyWithModifier::from_str` of zellij_tile, its result rendered by the
/// key's `Display`. Believed, not proved: that what comes back depends on the
/// characters of `spec` alone, which is what gives it the name
/// `parsed_key_text`.
#[verifier::external_body]
fn parse_key_text(spec: &str) -> (text: Option<String>)
    ensures
        text_of(text) == parsed_key_text(spec@),
{
    match KeyWithModifier::from_str(spec) {
        Ok(key) => Some(key.to_string()),
        Err(_) => None,
    }
}

/// A key that is held while another is pressed.
#[derive(Clone, Copy, Debug, PartialEq, Eq, Structural)]
pub enum Modifier {
    Ctrl,
    Alt,
    Shift,
    Super,
}

/// The text that stands for `modifier` in a display, where it is among
/// `modifiers`: its name and a space.
pub open spec fn modifier_text(
    modifiers: Seq<Modifier>,
    modifier: Modifier,
    name: Seq<char>,
) -> Seq<char> {
    if modifiers.contains(modifier) {
        name + seq![' ']
    } else {
        Seq::empty()
    }
}

/// The display text of the character key `key` pressed with `modifiers`: the
/// modifiers that are held, each once, in the order Ctrl, Alt, Shift, Super
/// and each followed by a space, and then the key, the space bar by its name.
pub open spec fn key_text(key: char, modifiers: Seq<Modifier>) -> Seq<char> {
    modifier_text(modifiers, Modifier::Ctrl, "Ctrl"@) + modifier_text(
        modifiers,
        Modifier::Alt,
        "Alt"@,
    ) + modifier_text(modifiers, Modifier::Shift, "Shift"@) + modifier_text(
        modifiers,
        Modifier::Super,
        "Super"@,
    ) + if key == ' ' {
        "SPACE"@
    } else {
        seq![key]
    }
}

/// `KeyWithModifier::new_with_modifiers` of zellij_tile on a character key,
/// its result rendered by the key's `Display`. Believed, not proved: that the
/// display lists the modifiers held in the order Ctrl, Alt, Shift, Super,
/// each by its name and once, with a space behind each, and then the key,
/// which is the character itself or, for the space bar, `SPACE`.
#[verifier::external_body]
fn modified_key_text(key: char, modifiers: &Vec<Modifier>) -> (text: String)
    ensures
        text@ == key_text(key, modifiers@),
{
    let key_modifiers = modifiers.iter().map(|modifier| match modifier {
        Modifier::Ctrl => KeyModifier::Ctrl,
        Modifier::Alt => KeyModifier::Alt,
        Modifier::Shift => KeyModifier::Shift,
        Modifier::Super => KeyModifier::Super,
    }).collect();
    KeyWithModifier::new_with_modifiers(BareKey::Char(key), key_modifiers).to_string()
}

/// Whether the character at `i` of the display text `display` is a space
/// that joins two modifiers: a space with another space behind it. The last
/// space stands before the key.
pub open spec fn is_joining_space(display: Seq<char>, i: int) -> bool {
    display[i] == ' ' && exists|j: int| i < j < display.len() && display[j] == ' '
}

/// The display text as a title names it: the modifiers joined by `-`, and a
/// space before the key.
pub open spec fn label_display(display: Seq<char>) -> Seq<char> {
    Seq::new(
        display.len(),
        |i: int|
            if is_joining_space(display, i) {
                '-'
            } else {
                display[i]
            },
    )
}

/// A title changes nothing of the display text but the spaces that join
/// modifiers, which become `-`; the one space it keeps is the last.
pub proof fn lemma_label_display(display: Seq<char>)
    ensures
        label_display(display).len() == display.len(),
        forall|i: int|
            0 <= i < display.len() && #[trigger] label_display(display)[i] != display[i]
                ==> display[i] == ' ' && label_display(display)[i] == '-',
        forall|i: int, j: int|
            0 <= i < j < display.len() && display[j] == ' ' ==> #[trigger] label_display(
                display,
            )[i] != ' ' || #[trigger] label_display(display)[j] != ' ',
{
    assert forall|i: int, j: int| 0 <= i < j < display.len() && display[j] == ' ' implies
        #[trigger] label_display(display)[i] != ' ' || #[trigger] label_display(display)[j]
        != ' ' by {
        if display[i] == ' ' {
            assert(is_joining_space(display, i));
        }
    }
}

/// The display text `display` as a title names it.
pub fn label_text(display: &str) -> (label: String)
    ensures
        label@ == label_display(display@),
{
    let chars = chars_of(display);
    let ghost wanted = label_display(display@);
    // The last space, if there is one, stands before the key, at `last`;
    // without a space `last` is 0. The spaces before `last` join modifiers.
    let mut key: usize = chars.len();
    while key > 0 && chars[key - 1] != ' '
        invariant
            key <= chars.len(),
            forall|j: int| key <= j < chars.len() ==> chars@[j] != ' ',
        decreases key,
    {
        key = key - 1;
    }
    let last: usize = if key == 0 {
        0
    } else {
        key - 1
    };
    assert forall|j: int| 0 <= j < chars.len() implies (is_joining_space(chars@, j) <==> chars@[j]
        == ' ' && j < last) by {
        if chars@[j] == ' ' && j < last {
            assert(chars@[last as int] == ' ');
        }
    }
    let mut label = String::new();
    let mut start: usize = 0;
    let mut i: usize = 0;
    while i < last
        invariant
            start <= i <= last <= chars.len(),
            chars@ == display@,
            wanted == label_display(display@),
            label@ == wanted.subrange(0, start as int),
            forall|j: int| start <= j < i ==> chars@[j] != ' ',
            forall|j: int|
                0 <= j < chars.len() ==> (is_joining_space(chars@, j) <==> chars@[j] == ' ' && j
                    < last),
        decreases last - i,
    {
        if chars[i] == ' ' {
            proof {
                reveal_strlit("-");
                assert(wanted.subrange(0, i + 1) =~= wanted.subrange(0, start as int)
                    + display@.subrange(start as int, i as int) + "-"@);
            }
            label.append(display.substring_char(start, i));
            label.append("-");
            start = i + 1;
        }
        i = i + 1;
    }
    proof {
        assert(wanted =~= wanted.subrange(0, start as int) + display@.subrange(
            start as int,
            display@.len() as int,
        ));
    }
    label.append(display.substring_char(start, chars.len()));
    label
}

/// A key combination, held as its display text.
#[derive(Clone, Debug)]
pub struct Shortcut {
    text: String,
}

impl View for Shortcut {
    type V = Seq<char>;

    closed spec fn view(&self) -> Seq<char> {
        self.text@
    }
}

impl Shortcut {
    /// The combination that `spec` describes, where the host reads one out
    /// of it.
    pub fn parse(spec: &str) -> (shortcut: Option<Shortcut>)
        ensures
            match shortcut {
                Some(s) => parsed_key_text(spec@) == Some(s@),
                None => parsed_key_text(spec@) is None,
            },
    {
        match parse_key_text(spec) {
            Some(text) => Some(Shortcut { text }),
            None => None,
        }
    }

    /// The character key `key` pressed with `modifiers`.
    pub fn with_modifiers(key: char, modifiers: &Vec<Modifier>) -> (shortcut: Shortcut)
        ensures
            shortcut@ == key_text(key, modifiers@),
    {
        Shortcut { text: modified_key_text(key, modifiers) }
    }

    /// Ctrl, Shift and `r`: the combination bound where none is configured.
    pub fn ctrl_shift_r() -> (shortcut: Shortcut)
        ensures
            shortcut@ == "Ctrl Shift r"@,
    {
        let mut modifiers: Vec<Modifier> = Vec::new();
        modifiers.push(Modifier::Ctrl);
        modifiers.push(Modifier::Shift);
        let shortcut = Shortcut::with_modifiers('r', &modifiers);
        proof {
            reveal_strlit("Ctrl");
            reveal_strlit("Shift");
            reveal_strlit("Ctrl Shift r");
            assert(modifiers@ =~= seq![Modifier::Ctrl, Modifier::Shift]);
            assert(modifiers@[0] == Modifier::Ctrl && modifiers@[1] == Modifier::Shift);
            assert(!modifiers@.contains(Modifier::Alt));
            assert(!modifiers@.contains(Modifier::Super));
            assert(key_text('r', modifiers@) =~= "Ctrl Shift r"@);
        }
        shortcut
    }

    /// The combination as a title names it.
    pub fn label(&self) -> (label: String)
        ensures
            label@ == label_display(self@),
    {
        label_text(self.text.as_str())
    }

    /// The text in which the host displays the combination.
    pub fn as_str(&self) -> (text: &str)
        ensures
            text@ == self@,
    {
        self.text.as_str()
    }
}

} // verus!
