//! Parsing of user-written key combinations such as `["Cmd", "Shift", "K"]`.
use vstd::prelude::*;

verus! {

broadcast use vstd::string::group_string_axioms;

/// The modifier keys that must be held together with the base key.
#[derive(Clone, Copy, Debug, PartialEq, Eq, Structural)]
pub struct Modifiers {
    pub meta: bool,
    pub control: bool,
    pub alt: bool,
    pub shift: bool,
}

/// The base key of a combination.
///
/// `Letter` holds the upper-case ASCII code of the letter (`b'A'..=b'Z'`),
/// `Digit` the ASCII code of the digit (`b'0'..=b'9'`).
#[derive(Clone, Copy, Debug, PartialEq, Eq, Structural)]
pub enum KeyCode {
    Letter(u8),
    Digit(u8),
    Comma,
}

/// A platform hotkey: a modifier mask and one base key.
#[derive(Clone, Copy, Debug, PartialEq, Eq, Structural)]
pub struct Hotkey {
    pub modifiers: Modifiers,
    pub key: KeyCode,
}

pub open spec fn is_meta_name(t: Seq<char>) -> bool {
    t == "Cmd"@ || t == "Meta"@
}

pub open spec fn is_control_name(t: Seq<char>) -> bool {
    t == "Ctrl"@ || t == "Control"@
}

pub open spec fn is_alt_name(t: Seq<char>) -> bool {
    t == "Alt"@
}

pub open spec fn is_shift_name(t: Seq<char>) -> bool {
    t == "Shift"@
}

/// A token of the fixed modifier vocabulary (matched case-sensitively).
pub open spec fn is_modifier_name(t: Seq<char>) -> bool {
    is_meta_name(t) || is_control_name(t) || is_alt_name(t) || is_shift_name(t)
}

/// The union of the modifiers that the tokens name.
pub open spec fn modifiers_of(toks: Seq<Seq<char>>) -> Modifiers {
    Modifiers {
        meta: exists|i: int| 0 <= i < toks.len() && is_meta_name(#[trigger] toks[i]),
        control: exists|i: int| 0 <= i < toks.len() && is_control_name(#[trigger] toks[i]),
        alt: exists|i: int| 0 <= i < toks.len() && is_alt_name(#[trigger] toks[i]),
        shift: exists|i: int| 0 <= i < toks.len() && is_shift_name(#[trigger] toks[i]),
    }
}

/// A token of exactly one byte: one ASCII character.
pub open spec fn is_single_char(t: Seq<char>) -> bool {
    t.len() == 1 && vstd::utf8::is_ascii_chars(t)
}

/// The base key named by one ASCII byte: letters case-insensitively,
/// digits, and the comma.
pub open spec fn key_of_byte(b: u8) -> Option<KeyCode> {
    if 65 <= b <= 90 {
        Some(KeyCode::Letter(b))
    } else if 97 <= b <= 122 {
        Some(KeyCode::Letter((b - 32) as u8))
    } else if 48 <= b <= 57 {
        Some(KeyCode::Digit(b))
    } else if b == 44 {
        Some(KeyCode::Comma)
    } else {
        None
    }
}

/// A single-character token that names a base key.
pub open spec fn is_resolvable(t: Seq<char>) -> bool {
    is_single_char(t) && key_of_byte(t[0] as u8) is Some
}

/// The base key decided by the last single-character token, if any;
/// a single-character token that names no key leaves none.
pub open spec fn last_key(toks: Seq<Seq<char>>) -> Option<KeyCode>
    decreases toks.len(),
{
    if toks.len() == 0 {
        None
    } else if is_single_char(toks.last()) {
        key_of_byte(toks.last()[0] as u8)
    } else {
        last_key(toks.drop_last())
    }
}

/// What a sequence of tokens parses to.
pub open spec fn parse_spec(toks: Seq<Seq<char>>) -> Option<Hotkey> {
    match last_key(toks) {
        Some(k) => Some(Hotkey { modifiers: modifiers_of(toks), key: k }),
        None => None,
    }
}

/// The character sequences of a list of strings.
pub open spec fn tokens_of(keys: Seq<String>) -> Seq<Seq<char>> {
    keys.map_values(|s: String| s@)
}

pub(crate) fn token_is(t: &String, name: &str) -> (r: bool)
    ensures
        r == (t@ == name@),
{
    let owned = name.to_owned();
    *t == owned
}

/// The base key named by one ASCII byte.
pub fn key_for_byte(b: u8) -> (r: Option<KeyCode>)
    ensures
        r == key_of_byte(b),
{
    if 65 <= b && b <= 90 {
        Some(KeyCode::Letter(b))
    } else if 97 <= b && b <= 122 {
        Some(KeyCode::Letter(b - 32))
    } else if 48 <= b && b <= 57 {
        Some(KeyCode::Digit(b))
    } else if b == 44 {
        Some(KeyCode::Comma)
    } else {
        None
    }
}

/// The base key of a single-character token, and whether the token has
/// exactly one character at all.
fn single_char_key(t: &String) -> (r: (bool, Option<KeyCode>))
    ensures
        r.0 == is_single_char(t@),
        r.0 ==> r.1 == key_of_byte(t@[0] as u8),
{
    let s = t.as_str();
    if s.is_ascii() && s.len() == 1 {
        let bytes = s.as_bytes();
        let b = bytes[0];
        (true, key_for_byte(b))
    } else {
        proof {
            if is_single_char(t@) {
                assert(vstd::string::is_ascii(s));
            }
        }
        (false, None)
    }
}

/// Parses a key combination. Recognised modifier tokens are collected into
/// the mask; the last single-character token decides the base key; other
/// tokens are ignored. Returns `None` when no base key results.
pub fn parse_shortcut(keys: &Vec<String>) -> (r: Option<Hotkey>)
    ensures
        r == parse_spec(tokens_of(keys@)),
{
    let ghost toks = tokens_of(keys@);
    let mut meta = false;
    let mut control = false;
    let mut alt = false;
    let mut shift = false;
    let mut key: Option<KeyCode> = None;
    let mut i: usize = 0;
    while i < keys.len()
        invariant
            0 <= i <= keys.len(),
            toks == tokens_of(keys@),
            toks.len() == keys@.len(),
            meta == exists|j: int| 0 <= j < i && is_meta_name(#[trigger] toks[j]),
            control == exists|j: int| 0 <= j < i && is_control_name(#[trigger] toks[j]),
            alt == exists|j: int| 0 <= j < i && is_alt_name(#[trigger] toks[j]),
            shift == exists|j: int| 0 <= j < i && is_shift_name(#[trigger] toks[j]),
            key == last_key(toks.take(i as int)),
        decreases keys.len() - i,
    {
        let t = &keys[i];
        proof {
            reveal_strlit("Cmd");
            reveal_strlit("Meta");
            reveal_strlit("Ctrl");
            reveal_strlit("Control");
            reveal_strlit("Alt");
            reveal_strlit("Shift");
        }
        assert(toks[i as int] == t@);
        assert(toks.take(i + 1).drop_last() =~= toks.take(i as int));
        if token_is(t, "Cmd") || token_is(t, "Meta") {
            meta = true;
        } else if token_is(t, "Ctrl") || token_is(t, "Control") {
            control = true;
        } else if token_is(t, "Alt") {
            alt = true;
        } else if token_is(t, "Shift") {
            shift = true;
        } else {
            let (single, k) = single_char_key(t);
            if single {
                key = k;
            }
        }
        i += 1;
    }
    assert(toks.take(i as int) =~= toks);
    match key {
        Some(k) => Some(
            Hotkey { modifiers: Modifiers { meta, control, alt, shift }, key: k },
        ),
        None => None,
    }
}

proof fn lemma_last_key_at(toks: Seq<Seq<char>>, p: int)
    requires
        0 <= p < toks.len(),
        is_single_char(toks[p]),
        forall|j: int| p < j < toks.len() ==> !is_single_char(#[trigger] toks[j]),
    ensures
        last_key(toks) == key_of_byte(toks[p][0] as u8),
    decreases toks.len(),
{
    if p < toks.len() - 1 {
        let rest = toks.drop_last();
        assert forall|j: int| p < j < rest.len() implies !is_single_char(#[trigger] rest[j]) by {
            assert(rest[j] == toks[j]);
        }
        lemma_last_key_at(rest, p);
    }
}

proof fn lemma_no_key(toks: Seq<Seq<char>>)
    requires
        forall|j: int| 0 <= j < toks.len() ==> !is_resolvable(#[trigger] toks[j]),
    ensures
        last_key(toks) is None,
    decreases toks.len(),
{
    if toks.len() > 0 {
        assert(!is_resolvable(toks[toks.len() - 1]));
        let rest = toks.drop_last();
        assert forall|j: int| 0 <= j < rest.len() implies !is_resolvable(#[trigger] rest[j]) by {
            assert(rest[j] == toks[j]);
        }
        lemma_no_key(rest);
    }
}

/// A combination with at least one recognised modifier and exactly one
/// resolvable base-key token, after which no other single-character token
/// follows, parses to the union of the named modifiers and that key.
pub proof fn lemma_parse_modifiers_and_key(toks: Seq<Seq<char>>, p: int)
    requires
        exists|i: int| 0 <= i < toks.len() && is_modifier_name(#[trigger] toks[i]),
        0 <= p < toks.len(),
        is_resolvable(toks[p]),
        forall|j: int| 0 <= j < toks.len() && j != p ==> !is_resolvable(#[trigger] toks[j]),
        forall|j: int| p < j < toks.len() ==> !is_single_char(#[trigger] toks[j]),
    ensures
        parse_spec(toks) == Some(
            Hotkey { modifiers: modifiers_of(toks), key: key_of_byte(toks[p][0] as u8)->0 },
        ),
{
    lemma_last_key_at(toks, p);
}

/// Tokens among which none resolves to a base key parse to nothing.
pub proof fn lemma_parse_without_key(toks: Seq<Seq<char>>)
    requires
        forall|j: int| 0 <= j < toks.len() ==> !is_resolvable(#[trigger] toks[j]),
    ensures
        parse_spec(toks) is None,
{
    lemma_no_key(toks);
}

} // verus!
