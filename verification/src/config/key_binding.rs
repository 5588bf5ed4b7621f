//! Key chords and how a binding names them: `"ctrl+s"`, `"shift+tab"`, `"q"`.

use crate::command::Command;
use crate::text::{
    chars_of, joined, lemma_joined_first, lowercase, parse_u8, parsed_u8, skip_chars, str_eq,
    string_of, views,
};
use vstd::prelude::*;

verus! {

/// What is wrong with a configuration, and the text that is at fault.
#[derive(Clone, Debug, PartialEq, Eq)]
pub enum ConfigError {
    /// No key has this name.
    UnknownKeyCode(String),
    /// No modifier has this name.
    UnknownKeyModifiers(String),
    /// A binding that names no key chord or no command.
    InvalidKeybinding(String),
}

/// A `ConfigError` with its text as characters.
pub enum ConfigErrorView {
    UnknownKeyCode(Seq<char>),
    UnknownKeyModifiers(Seq<char>),
    InvalidKeybinding(Seq<char>),
}

impl View for ConfigError {
    type V = ConfigErrorView;

    open spec fn view(&self) -> ConfigErrorView {
        match *self {
            ConfigError::UnknownKeyCode(s) => ConfigErrorView::UnknownKeyCode(s@),
            ConfigError::UnknownKeyModifiers(s) => ConfigErrorView::UnknownKeyModifiers(s@),
            ConfigError::InvalidKeybinding(s) => ConfigErrorView::InvalidKeybinding(s@),
        }
    }
}

/// A key of the keyboard.
#[derive(Clone, Copy, Debug, PartialEq, Eq, Hash, Structural)]
pub enum KeyCode {
    Backspace,
    Enter,
    Left,
    Right,
    Up,
    Down,
    Home,
    End,
    PageUp,
    PageDown,
    Tab,
    BackTab,
    Delete,
    Insert,
    F(u8),
    Char(char),
    Null,
    Esc,
    /// A key that no binding can name.
    Other,
}

/// The modifier keys held down with a key.
#[derive(Clone, Copy, Debug, PartialEq, Eq, Hash, Structural)]
pub struct KeyModifiers {
    pub shift: bool,
    pub control: bool,
    pub alt: bool,
    pub super_key: bool,
    pub hyper: bool,
    pub meta: bool,
}

/// No modifier.
pub open spec fn no_modifiers() -> KeyModifiers {
    KeyModifiers {
        shift: false,
        control: false,
        alt: false,
        super_key: false,
        hyper: false,
        meta: false,
    }
}

/// The modifiers that are in `a` or in `b`.
pub open spec fn united(a: KeyModifiers, b: KeyModifiers) -> KeyModifiers {
    KeyModifiers {
        shift: a.shift || b.shift,
        control: a.control || b.control,
        alt: a.alt || b.alt,
        super_key: a.super_key || b.super_key,
        hyper: a.hyper || b.hyper,
        meta: a.meta || b.meta,
    }
}

impl KeyModifiers {
    pub fn none() -> (r: Self)
        ensures
            r == no_modifiers(),
    {
        KeyModifiers {
            shift: false,
            control: false,
            alt: false,
            super_key: false,
            hyper: false,
            meta: false,
        }
    }

    pub fn shift() -> (r: Self)
        ensures
            r == (KeyModifiers { shift: true, ..no_modifiers() }),
    {
        KeyModifiers { shift: true, ..KeyModifiers::none() }
    }

    pub fn control() -> (r: Self)
        ensures
            r == (KeyModifiers { control: true, ..no_modifiers() }),
    {
        KeyModifiers { control: true, ..KeyModifiers::none() }
    }

    pub fn alt() -> (r: Self)
        ensures
            r == (KeyModifiers { alt: true, ..no_modifiers() }),
    {
        KeyModifiers { alt: true, ..KeyModifiers::none() }
    }

    pub fn super_key() -> (r: Self)
        ensures
            r == (KeyModifiers { super_key: true, ..no_modifiers() }),
    {
        KeyModifiers { super_key: true, ..KeyModifiers::none() }
    }

    pub fn hyper() -> (r: Self)
        ensures
            r == (KeyModifiers { hyper: true, ..no_modifiers() }),
    {
        KeyModifiers { hyper: true, ..KeyModifiers::none() }
    }

    pub fn meta() -> (r: Self)
        ensures
            r == (KeyModifiers { meta: true, ..no_modifiers() }),
    {
        KeyModifiers { meta: true, ..KeyModifiers::none() }
    }

    /// The modifiers that are in `self` or in `other`.
    pub fn union(self, other: Self) -> (r: Self)
        ensures
            r == united(self, other),
    {
        KeyModifiers {
            shift: self.shift || other.shift,
            control: self.control || other.control,
            alt: self.alt || other.alt,
            super_key: self.super_key || other.super_key,
            hyper: self.hyper || other.hyper,
            meta: self.meta || other.meta,
        }
    }

    pub fn is_empty(&self) -> (r: bool)
        ensures
            r == (*self == no_modifiers()),
    {
        !(self.shift || self.control || self.alt || self.super_key || self.hyper || self.meta)
    }
}

/// A key chord: a key and the modifiers held down with it.
#[derive(Clone, Copy, Debug, PartialEq, Eq, Hash, Structural)]
pub struct Key {
    pub modifiers: KeyModifiers,
    pub code: KeyCode,
}

impl Key {
    pub fn new(code: KeyCode, modifiers: KeyModifiers) -> (r: Self)
        ensures
            r == (Key { modifiers, code }),
    {
        Key { code, modifiers }
    }

    /// The chord of Control and the letter c.
    pub fn ctrl_c() -> (r: Self)
        ensures
            r == (Key {
                modifiers: KeyModifiers { control: true, ..no_modifiers() },
                code: KeyCode::Char('c'),
            }),
    {
        Key::new(KeyCode::Char('c'), KeyModifiers::control())
    }
}

impl From<char> for Key {
    fn from(value: char) -> (r: Self) {
        Key::new(KeyCode::Char(value), KeyModifiers::none())
    }
}

impl vstd::std_specs::convert::FromSpecImpl<char> for Key {
    open spec fn obeys_from_spec() -> bool {
        true
    }

    open spec fn from_spec(value: char) -> Self {
        Key { modifiers: no_modifiers(), code: KeyCode::Char(value) }
    }
}

impl From<(KeyCode, KeyModifiers)> for Key {
    fn from(value: (KeyCode, KeyModifiers)) -> (r: Self) {
        Key::new(value.0, value.1)
    }
}

impl vstd::std_specs::convert::FromSpecImpl<(KeyCode, KeyModifiers)> for Key {
    open spec fn obeys_from_spec() -> bool {
        true
    }

    open spec fn from_spec(value: (KeyCode, KeyModifiers)) -> Self {
        Key { modifiers: value.1, code: value.0 }
    }
}

impl From<(char, KeyModifiers)> for Key {
    fn from(value: (char, KeyModifiers)) -> (r: Self) {
        Key::new(KeyCode::Char(value.0), value.1)
    }
}

impl vstd::std_specs::convert::FromSpecImpl<(char, KeyModifiers)> for Key {
    open spec fn obeys_from_spec() -> bool {
        true
    }

    open spec fn from_spec(value: (char, KeyModifiers)) -> Self {
        Key { modifiers: value.1, code: KeyCode::Char(value.0) }
    }
}

/// The modifier that a binding names by `s`; the empty name is no modifier.
pub open spec fn modifier_named(s: Seq<char>) -> Option<KeyModifiers> {
    if s == ""@ {
        Some(no_modifiers())
    } else if s == "alt"@ {
        Some(KeyModifiers { alt: true, ..no_modifiers() })
    } else if s == "ctrl"@ || s == "control"@ {
        Some(KeyModifiers { control: true, ..no_modifiers() })
    } else if s == "hyper"@ {
        Some(KeyModifiers { hyper: true, ..no_modifiers() })
    } else if s == "meta"@ {
        Some(KeyModifiers { meta: true, ..no_modifiers() })
    } else if s == "shift"@ {
        Some(KeyModifiers { shift: true, ..no_modifiers() })
    } else if s == "super"@ {
        Some(KeyModifiers { super_key: true, ..no_modifiers() })
    } else {
        None
    }
}

/// Reads the name of one modifier.
pub fn parse_modifiers(modifiers: &str) -> (r: Result<KeyModifiers, ConfigError>)
    ensures
        match r {
            Ok(m) => modifier_named(modifiers@) == Some(m),
            Err(e) => modifier_named(modifiers@) is None && e@
                == ConfigErrorView::UnknownKeyModifiers(modifiers@),
        },
{
    if str_eq(modifiers, "") {
        Ok(KeyModifiers::none())
    } else if str_eq(modifiers, "alt") {
        Ok(KeyModifiers::alt())
    } else if str_eq(modifiers, "ctrl") || str_eq(modifiers, "control") {
        Ok(KeyModifiers::control())
    } else if str_eq(modifiers, "hyper") {
        Ok(KeyModifiers::hyper())
    } else if str_eq(modifiers, "meta") {
        Ok(KeyModifiers::meta())
    } else if str_eq(modifiers, "shift") {
        Ok(KeyModifiers::shift())
    } else if str_eq(modifiers, "super") {
        Ok(KeyModifiers::super_key())
    } else {
        Err(ConfigError::UnknownKeyModifiers(modifiers.to_owned()))
    }
}

/// The key that a binding names by a word of two characters or more.
pub open spec fn key_named(s: Seq<char>) -> Option<KeyCode> {
    if s == "esc"@ {
        Some(KeyCode::Esc)
    } else if s == "space"@ {
        Some(KeyCode::Char(' '))
    } else if s == "backspace"@ {
        Some(KeyCode::Backspace)
    } else if s == "backtab"@ {
        Some(KeyCode::BackTab)
    } else if s == "delete"@ {
        Some(KeyCode::Delete)
    } else if s == "down"@ {
        Some(KeyCode::Down)
    } else if s == "end"@ {
        Some(KeyCode::End)
    } else if s == "enter"@ {
        Some(KeyCode::Enter)
    } else if s == "home"@ {
        Some(KeyCode::Home)
    } else if s == "insert"@ {
        Some(KeyCode::Insert)
    } else if s == "left"@ {
        Some(KeyCode::Left)
    } else if s == "page_down"@ {
        Some(KeyCode::PageDown)
    } else if s == "page_up"@ {
        Some(KeyCode::PageUp)
    } else if s == "right"@ {
        Some(KeyCode::Right)
    } else if s == "tab"@ {
        Some(KeyCode::Tab)
    } else if s == "up"@ {
        Some(KeyCode::Up)
    } else {
        None
    }
}

/// Whether `s` is one character that takes one byte.
pub open spec fn single_byte(s: Seq<char>) -> bool {
    s.len() == 1 && s[0] <= '\u{7f}'
}

/// The key that a binding names by `s`: no key for the empty name, the
/// character itself for a name of one byte, a function key for `f` and its
/// number, else the key of that name.
pub open spec fn code_named(s: Seq<char>) -> Option<KeyCode> {
    if s.len() == 0 {
        Some(KeyCode::Null)
    } else if single_byte(s) {
        Some(KeyCode::Char(s[0]))
    } else if s[0] == 'f' && parsed_u8(s.skip(1)) is Some {
        Some(KeyCode::F(parsed_u8(s.skip(1))->0))
    } else {
        key_named(s)
    }
}

fn parse_key_name(code: &str) -> (r: Option<KeyCode>)
    ensures
        r == key_named(code@),
{
    if str_eq(code, "esc") {
        Some(KeyCode::Esc)
    } else if str_eq(code, "space") {
        Some(KeyCode::Char(' '))
    } else if str_eq(code, "backspace") {
        Some(KeyCode::Backspace)
    } else if str_eq(code, "backtab") {
        Some(KeyCode::BackTab)
    } else if str_eq(code, "delete") {
        Some(KeyCode::Delete)
    } else if str_eq(code, "down") {
        Some(KeyCode::Down)
    } else if str_eq(code, "end") {
        Some(KeyCode::End)
    } else if str_eq(code, "enter") {
        Some(KeyCode::Enter)
    } else if str_eq(code, "home") {
        Some(KeyCode::Home)
    } else if str_eq(code, "insert") {
        Some(KeyCode::Insert)
    } else if str_eq(code, "left") {
        Some(KeyCode::Left)
    } else if str_eq(code, "page_down") {
        Some(KeyCode::PageDown)
    } else if str_eq(code, "page_up") {
        Some(KeyCode::PageUp)
    } else if str_eq(code, "right") {
        Some(KeyCode::Right)
    } else if str_eq(code, "tab") {
        Some(KeyCode::Tab)
    } else if str_eq(code, "up") {
        Some(KeyCode::Up)
    } else {
        None
    }
}

/// Reads the name of one key.
pub fn parse_code(code: &str) -> (r: Result<KeyCode, ConfigError>)
    ensures
        match r {
            Ok(c) => code_named(code@) == Some(c),
            Err(e) => code_named(code@) is None && e@ == ConfigErrorView::UnknownKeyCode(code@),
        },
{
    let cv = chars_of(code);
    if cv.len() == 0 {
        return Ok(KeyCode::Null);
    }
    if cv.len() == 1 && cv[0] <= '\u{7f}' {
        return Ok(KeyCode::Char(cv[0]));
    }
    if cv[0] == 'f' {
        let rest = skip_chars(code, 1);
        match parse_u8(rest.as_str()) {
            Some(n) => {
                return Ok(KeyCode::F(n));
            },
            None => {},
        }
    }
    match parse_key_name(code) {
        Some(c) => Ok(c),
        None => Err(ConfigError::UnknownKeyCode(code.to_owned())),
    }
}

/// The parts still to come when `s` is left to read and `cur` holds the
/// characters of the part being read.
pub open spec fn parts_from(s: Seq<char>, cur: Seq<char>) -> Seq<Seq<char>>
    decreases s.len(),
{
    if s.len() == 0 {
        seq![cur]
    } else if s[0] == '+' {
        seq![cur] + parts_from(s.skip(1), seq![])
    } else {
        parts_from(s.skip(1), cur.push(s[0]))
    }
}

/// The parts of `s` between its plus signs: always one part at least, and
/// an empty part wherever two plus signs meet or one stands at an end.
pub open spec fn parts(s: Seq<char>) -> Seq<Seq<char>> {
    parts_from(s, seq![])
}

/// Whether `w` holds no plus sign.
pub open spec fn plusless(w: Seq<char>) -> bool {
    forall|j: int| 0 <= j < w.len() ==> #[trigger] w[j] != '+'
}

proof fn lemma_parts_from(s: Seq<char>, cur: Seq<char>)
    requires
        plusless(cur),
    ensures
        parts_from(s, cur).len() >= 1,
        joined(parts_from(s, cur), seq!['+']) == cur + s,
        forall|i: int| 0 <= i < parts_from(s, cur).len() ==> plusless(#[trigger] parts_from(s, cur)[i]),
    decreases s.len(),
{
    let sep = seq!['+'];
    let ps = parts_from(s, cur);
    if s.len() == 0 {
        assert(seq![cur].skip(1) =~= Seq::<Seq<char>>::empty());
        assert(joined(seq![cur], sep) =~= cur + s);
        assert forall|i: int| 0 <= i < ps.len() implies plusless(#[trigger] ps[i]) by {
            assert(ps[i] == cur);
        }
    } else if s[0] == '+' {
        let rest = parts_from(s.skip(1), seq![]);
        lemma_parts_from(s.skip(1), seq![]);
        lemma_joined_first(cur, rest, sep);
        assert(cur + sep + (Seq::<char>::empty() + s.skip(1)) =~= cur + s);
        assert forall|i: int| 0 <= i < ps.len() implies plusless(#[trigger] ps[i]) by {
            if i == 0 {
                assert(ps[i] == cur);
            } else {
                assert(ps[i] == rest[i - 1]);
            }
        }
    } else {
        let next = cur.push(s[0]);
        assert forall|j: int| 0 <= j < next.len() implies #[trigger] next[j] != '+' by {
            if j < cur.len() {
                assert(next[j] == cur[j]);
            }
        }
        lemma_parts_from(s.skip(1), next);
        assert(next + s.skip(1) =~= cur + s);
    }
}

/// The parts of a text, joined with plus signs again, are the text; and no
/// part holds a plus sign.
pub proof fn lemma_parts_make_the_text(s: Seq<char>)
    ensures
        parts(s).len() >= 1,
        joined(parts(s), seq!['+']) == s,
        forall|i: int| 0 <= i < parts(s).len() ==> plusless(#[trigger] parts(s)[i]),
{
    lemma_parts_from(s, seq![]);
    assert(Seq::<char>::empty() + s =~= s);
}

/// Splits `s` at its plus signs.
pub fn split_parts(s: &str) -> (out: Vec<String>)
    ensures
        views(out@) == parts(s@),
        out.len() >= 1,
{
    let sv = chars_of(s);
    let mut out: Vec<String> = Vec::new();
    let mut start: usize = 0;
    let mut i: usize = 0;
    proof {
        assert(sv@.skip(0) =~= sv@);
        assert(sv@.subrange(0, 0) =~= Seq::<char>::empty());
        assert(views(out@) + parts(sv@) =~= parts(sv@));
    }
    while i < sv.len()
        invariant
            start <= i <= sv.len(),
            views(out@) + parts_from(sv@.skip(i as int), sv@.subrange(start as int, i as int))
                == parts(sv@),
        decreases sv.len() - i,
    {
        let ghost rest = sv@.skip(i as int);
        let ghost cur = sv@.subrange(start as int, i as int);
        let ghost before = views(out@);
        assert(rest.skip(1) =~= sv@.skip(i + 1));
        if sv[i] == '+' {
            let part = string_of(&sv, start, i);
            out.push(part);
            assert(views(out@) =~= before + seq![cur]);
            start = i + 1;
            assert(sv@.subrange(start as int, i + 1) =~= Seq::<char>::empty());
            assert(views(out@) + parts_from(sv@.skip(i + 1), seq![]) =~= before + parts_from(
                rest,
                cur,
            ));
        } else {
            assert(sv@.subrange(start as int, i + 1) =~= cur.push(sv@[i as int]));
        }
        i += 1;
    }
    let ghost before = views(out@);
    let ghost cur = sv@.subrange(start as int, i as int);
    assert(sv@.skip(i as int) =~= Seq::<char>::empty());
    let part = string_of(&sv, start, i);
    out.push(part);
    assert(views(out@) =~= before + seq![cur]);
    out
}

/// The first of `names` that names no modifier, if there is one.
pub open spec fn first_unknown(names: Seq<Seq<char>>) -> Option<Seq<char>>
    decreases names.len(),
{
    if names.len() == 0 {
        None
    } else if modifier_named(names[0]) is None {
        Some(names[0])
    } else {
        first_unknown(names.skip(1))
    }
}

/// The modifiers that `names` name, all together.
pub open spec fn modifiers_named(names: Seq<Seq<char>>) -> KeyModifiers
    decreases names.len(),
{
    if names.len() == 0 {
        no_modifiers()
    } else {
        match modifier_named(names.last()) {
            Some(m) => united(modifiers_named(names.drop_last()), m),
            None => modifiers_named(names.drop_last()),
        }
    }
}

/// The key chord that the lowercase binding `s` names: its last part names
/// the key, the parts before it the modifiers. The first part that names
/// no modifier is at fault, and after the modifiers the key.
pub open spec fn key_of(s: Seq<char>) -> Result<Key, ConfigErrorView> {
    let ps = parts(s);
    let names = ps.drop_last();
    match first_unknown(names) {
        Some(name) => Err(ConfigErrorView::UnknownKeyModifiers(name)),
        None => match code_named(ps.last()) {
            Some(code) => Ok(Key { modifiers: modifiers_named(names), code }),
            None => Err(ConfigErrorView::UnknownKeyCode(ps.last())),
        },
    }
}

/// Whether `r` is the result `v`, the error taken by its view.
pub open spec fn is_result(r: Result<Key, ConfigError>, v: Result<Key, ConfigErrorView>) -> bool {
    match r {
        Ok(k) => v == Ok::<Key, ConfigErrorView>(k),
        Err(e) => v == Err::<Key, ConfigErrorView>(e@),
    }
}

proof fn lemma_first_unknown_step(names: Seq<Seq<char>>, n: int)
    requires
        0 <= n < names.len(),
        first_unknown(names.take(n)) is None,
    ensures
        modifier_named(names[n]) is None ==> first_unknown(names) == Some(names[n]),
        modifier_named(names[n]) is Some ==> first_unknown(names.take(n + 1)) is None,
    decreases n,
{
    if n == 0 {
        assert(names.take(1).skip(1) =~= Seq::<Seq<char>>::empty());
        assert(names.take(1)[0] == names[0]);
        assert(first_unknown(names.take(1).skip(1)) is None);
    } else {
        let head = names.take(n);
        let rest = names.skip(1);
        assert(head.skip(1) =~= rest.take(n - 1));
        assert(head[0] == names[0]);
        assert(modifier_named(names[0]) is Some);
        assert(first_unknown(rest.take(n - 1)) is None);
        assert(rest[n - 1] == names[n]);
        lemma_first_unknown_step(rest, n - 1);
        assert(names.take(n + 1).skip(1) =~= rest.take(n));
        assert(names.take(n + 1)[0] == names[0]);
        assert(first_unknown(names) == first_unknown(rest));
    }
}

/// Reads a binding that is in lowercase already.
pub fn parse_lowered_key(value: &str) -> (r: Result<Key, ConfigError>)
    ensures
        is_result(r, key_of(value@)),
{
    let ps = split_parts(value);
    let last = ps.len() - 1;
    let ghost all = parts(value@);
    let ghost names = all.drop_last();
    let mut modifiers = KeyModifiers::none();
    let mut i: usize = 0;
    proof {
        assert(names.take(0) =~= Seq::<Seq<char>>::empty());
    }
    while i < last
        invariant
            i <= last,
            last == ps.len() - 1,
            views(ps@) == all,
            names == all.drop_last(),
            all == parts(value@),
            first_unknown(names.take(i as int)) is None,
            modifiers == modifiers_named(names.take(i as int)),
        decreases last - i,
    {
        proof {
            lemma_first_unknown_step(names, i as int);
            assert(names[i as int] == ps@[i as int]@);
            assert(names.take(i + 1).drop_last() =~= names.take(i as int));
            assert(names.take(i + 1).last() == names[i as int]);
        }
        match parse_modifiers(ps[i].as_str()) {
            Ok(m) => {
                modifiers = modifiers.union(m);
            },
            Err(e) => {
                return Err(e);
            },
        }
        i += 1;
    }
    proof {
        assert(names.take(i as int) =~= names);
        assert(all.last() == ps@[last as int]@);
    }
    match parse_code(ps[last].as_str()) {
        Ok(code) => Ok(Key { modifiers, code }),
        Err(e) => Err(e),
    }
}

/// Reads a binding such as `"ctrl+s"`, whatever the case of its letters.
pub fn parse_key(value: &str) -> (r: Result<Key, ConfigError>)
    ensures
        is_result(r, key_of(lowercase(value@))),
{
    let lowered = value.to_lowercase();
    parse_lowered_key(lowered.as_str())
}

/// A key chord and the command it is bound to.
#[derive(Clone, Debug, PartialEq)]
pub struct KeyBinding {
    pub key: Key,
    pub command: Command,
}

impl KeyBinding {
    pub fn new(key: Key, command: Command) -> (r: Self)
        ensures
            r.key == key,
            r.command == command,
    {
        KeyBinding { key, command }
    }
}

} // verus!
