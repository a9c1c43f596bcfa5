//! The keys of the terminal interface and what they are bound to.

use crate::sorting::{is_sorted_order, key_views, sorted_order, SortKey};
use crate::text::{chars_of, joined, padded, push_chars, push_padded, push_str, string_of};
use crate::tui::commands::{TuiCommand, TuiState};
use ratatui::crossterm::event;
use vstd::prelude::*;
use vstd::string::StringExecFns;

verus! {

/// The keys that the interface tells apart.
#[derive(Debug, Clone, Copy, PartialEq, Eq, Structural)]
pub enum KeyCode {
    Backspace,
    Enter,
    Left,
    Right,
    Tab,
    BackTab,
    Char(char),
    Esc,
    /// Any other key. The help writes it as `Other`.
    Other,
}

/// Whether a key went down, is held, or came up.
#[derive(Debug, Clone, Copy, PartialEq, Eq, Structural)]
pub enum KeyEventKind {
    Press,
    Repeat,
    Release,
}

/// A key as the terminal reports it. `modifiers` and `state` are sets of
/// flags, one bit each, as the terminal library numbers them.
#[derive(Debug, Clone, Copy, PartialEq, Eq, Structural)]
pub struct KeyEvent {
    pub code: KeyCode,
    pub modifiers: u8,
    pub kind: KeyEventKind,
    pub state: u8,
}

/// No modifier key.
pub const NONE: u8 = 0;

/// The shift key, the lowest bit of the modifiers.
pub const SHIFT: u8 = 1;

/// Whether the shift key is among the modifiers `m`.
pub open spec fn has_shift(m: u8) -> bool {
    m % 2 == 1
}

/// The modifiers `m` and the shift key.
pub open spec fn with_shift(m: u8) -> u8 {
    if has_shift(m) {
        m
    } else {
        (m + 1) as u8
    }
}

/// Whether `c` is one of the capital letters `A` to `Z`.
pub open spec fn is_ascii_upper(c: char) -> bool {
    'A' <= c <= 'Z'
}

/// The capital of `c` where `c` is one of the letters `a` to `z`, else `c`.
pub open spec fn ascii_upper(c: char) -> char {
    if 'a' <= c <= 'z' {
        ((c as u32 - 32) as u8) as char
    } else {
        c
    }
}

impl KeyEvent {
    /// The key in the form in which keys are held against each other: a
    /// letter is a capital if and only if shift is held.
    pub open spec fn normalized(self) -> KeyEvent {
        match self.code {
            KeyCode::Char(c) => if is_ascii_upper(c) {
                KeyEvent { modifiers: with_shift(self.modifiers), ..self }
            } else if has_shift(self.modifiers) {
                KeyEvent { code: KeyCode::Char(ascii_upper(c)), ..self }
            } else {
                self
            },
            _ => self,
        }
    }

    /// Whether the two are one key: the same key, modifiers, kind and
    /// state, where a capital letter counts as typed with shift.
    pub open spec fn same_key(self, other: KeyEvent) -> bool {
        self.normalized() == other.normalized()
    }

    /// The key `code` going down with `modifiers` held.
    pub fn new(code: KeyCode, modifiers: u8) -> (r: KeyEvent)
        ensures
            r == (KeyEvent { code, modifiers, kind: KeyEventKind::Press, state: 0 }),
    {
        KeyEvent { code, modifiers, kind: KeyEventKind::Press, state: 0 }
    }

    /// Computes [`Self::normalized`].
    pub fn normalize(&self) -> (r: KeyEvent)
        ensures
            r == self.normalized(),
    {
        match self.code {
            KeyCode::Char(c) => {
                if 'A' <= c && c <= 'Z' {
                    let m = if self.modifiers % 2 == 1 {
                        self.modifiers
                    } else {
                        self.modifiers + 1
                    };
                    KeyEvent { code: self.code, modifiers: m, kind: self.kind, state: self.state }
                } else if self.modifiers % 2 == 1 {
                    let up = if 'a' <= c && c <= 'z' {
                        ((c as u32 - 32) as u8) as char
                    } else {
                        c
                    };
                    KeyEvent {
                        code: KeyCode::Char(up),
                        modifiers: self.modifiers,
                        kind: self.kind,
                        state: self.state,
                    }
                } else {
                    *self
                }
            },
            _ => *self,
        }
    }

    /// Whether the two are one key.
    pub fn is_same_key(&self, other: &KeyEvent) -> (r: bool)
        ensures
            r == self.same_key(*other),
    {
        self.normalize() == other.normalize()
    }
}

/// What a key is bound to, and how the help names that.
#[derive(Debug, Clone, Copy, PartialEq, Eq)]
pub struct KeyBinding {
    pub key: KeyEvent,
    pub command: TuiCommand,
    pub help: Option<&'static str>,
}

/// The table of key bindings.
pub struct Keybindings {
    pub map: Vec<KeyBinding>,
}

/// The place of the first binding of `bindings` at or after `i` whose key
/// is `key`, or the length of `bindings` where there is none.
pub open spec fn first_bound(bindings: Seq<KeyBinding>, key: KeyEvent, i: int) -> int
    decreases bindings.len() - i,
{
    if 0 <= i < bindings.len() && !bindings[i].key.same_key(key) {
        first_bound(bindings, key, i + 1)
    } else {
        i
    }
}

/// What `key` is bound to in `bindings`: the command of the first binding
/// of that key.
pub open spec fn bound_command(bindings: Seq<KeyBinding>, key: KeyEvent) -> Option<TuiCommand> {
    let i = first_bound(bindings, key, 0);
    if 0 <= i < bindings.len() {
        Some(bindings[i].command)
    } else {
        None
    }
}

/// The key `code` going down with `modifiers` held.
pub open spec fn pressed(code: KeyCode, modifiers: u8) -> KeyEvent {
    KeyEvent { code, modifiers, kind: KeyEventKind::Press, state: 0 }
}

/// One binding.
pub open spec fn binding(
    code: KeyCode,
    modifiers: u8,
    command: TuiCommand,
    help: Option<&'static str>,
) -> KeyBinding {
    KeyBinding { key: pressed(code, modifiers), command, help }
}

/// The bindings that the interface starts with. Seeking moves by ten
/// seconds, and by a minute with shift.
pub open spec fn default_bindings() -> Seq<KeyBinding> {
    seq![
        binding(KeyCode::Char('1'), NONE, TuiCommand::State(TuiState::Player), Some("view player")),
        binding(KeyCode::Char('2'), NONE, TuiCommand::State(TuiState::Chapters), Some("view chapters")),
        binding(KeyCode::Char('0'), NONE, TuiCommand::State(TuiState::Help), Some("view help")),
        binding(KeyCode::Char('q'), NONE, TuiCommand::Quit, Some("quit, q")),
        binding(KeyCode::Char('{'), NONE, TuiCommand::Volume(-1i64), Some("vol -1")),
        binding(KeyCode::Char('}'), NONE, TuiCommand::Volume(1), Some("vol +1")),
        binding(KeyCode::Char('['), NONE, TuiCommand::Volume(-10i64), Some("vol -10")),
        binding(KeyCode::Char(']'), NONE, TuiCommand::Volume(10), Some("vol +10")),
        binding(KeyCode::Left, NONE, TuiCommand::Seek(-10_000i64), Some("seek -10")),
        binding(KeyCode::Left, SHIFT, TuiCommand::Seek(-60_000i64), Some("seek -60")),
        binding(KeyCode::Right, NONE, TuiCommand::Seek(10_000), Some("seek +10")),
        binding(KeyCode::Right, SHIFT, TuiCommand::Seek(60_000), Some("seek -60")),
        binding(KeyCode::Char('z'), NONE, TuiCommand::PrevChapter, Some("play-prev")),
        binding(KeyCode::Char('b'), NONE, TuiCommand::NextChapter, Some("play-next")),
        binding(KeyCode::Char(' '), NONE, TuiCommand::PlayPause, Some("play-pause")),
        binding(KeyCode::Char('j'), NONE, TuiCommand::Scroll(1), Some("scroll +1")),
        binding(KeyCode::Char('k'), NONE, TuiCommand::Scroll(-1i16), Some("scroll -1")),
        binding(KeyCode::Char(':'), NONE, TuiCommand::EnterCommandMode(true), None),
        binding(KeyCode::Esc, NONE, TuiCommand::EnterCommandMode(false), None),
    ]
}

fn bind(code: KeyCode, modifiers: u8, command: TuiCommand, help: Option<&'static str>) -> (r:
    KeyBinding)
    ensures
        r == binding(code, modifiers, command, help),
{
    KeyBinding { key: KeyEvent::new(code, modifiers), command, help }
}

/// Whether no key is bound twice in `bindings`.
pub open spec fn bound_once(bindings: Seq<KeyBinding>) -> bool {
    forall|i: int, j: int|
        0 <= i < j < bindings.len() ==> !(#[trigger] bindings[i]).key.same_key(
            (#[trigger] bindings[j]).key,
        )
}

/// No key is bound twice in the table that the interface starts with.
pub proof fn lemma_default_bindings_bound_once()
    ensures
        bound_once(default_bindings()),
{
    let d = default_bindings();
    assert forall|i: int| 0 <= i < d.len() implies (#[trigger] d[i]).key.normalized() == d[i].key by {}
}

impl Keybindings {
    /// The table that the interface starts with.
    pub fn new() -> (r: Self)
        ensures
            r.map@ == default_bindings(),
            bound_once(r.map@),
    {
        proof {
            lemma_default_bindings_bound_once();
        }
        let mut map: Vec<KeyBinding> = Vec::new();
        map.push(bind(KeyCode::Char('1'), NONE, TuiCommand::State(TuiState::Player), Some("view player")));
        map.push(
            bind(KeyCode::Char('2'), NONE, TuiCommand::State(TuiState::Chapters), Some("view chapters")),
        );
        map.push(bind(KeyCode::Char('0'), NONE, TuiCommand::State(TuiState::Help), Some("view help")));
        map.push(bind(KeyCode::Char('q'), NONE, TuiCommand::Quit, Some("quit, q")));
        map.push(bind(KeyCode::Char('{'), NONE, TuiCommand::Volume(-1), Some("vol -1")));
        map.push(bind(KeyCode::Char('}'), NONE, TuiCommand::Volume(1), Some("vol +1")));
        map.push(bind(KeyCode::Char('['), NONE, TuiCommand::Volume(-10), Some("vol -10")));
        map.push(bind(KeyCode::Char(']'), NONE, TuiCommand::Volume(10), Some("vol +10")));
        map.push(bind(KeyCode::Left, NONE, TuiCommand::Seek(-10_000), Some("seek -10")));
        map.push(bind(KeyCode::Left, SHIFT, TuiCommand::Seek(-60_000), Some("seek -60")));
        map.push(bind(KeyCode::Right, NONE, TuiCommand::Seek(10_000), Some("seek +10")));
        map.push(bind(KeyCode::Right, SHIFT, TuiCommand::Seek(60_000), Some("seek -60")));
        map.push(bind(KeyCode::Char('z'), NONE, TuiCommand::PrevChapter, Some("play-prev")));
        map.push(bind(KeyCode::Char('b'), NONE, TuiCommand::NextChapter, Some("play-next")));
        map.push(bind(KeyCode::Char(' '), NONE, TuiCommand::PlayPause, Some("play-pause")));
        map.push(bind(KeyCode::Char('j'), NONE, TuiCommand::Scroll(1), Some("scroll +1")));
        map.push(bind(KeyCode::Char('k'), NONE, TuiCommand::Scroll(-1), Some("scroll -1")));
        map.push(bind(KeyCode::Char(':'), NONE, TuiCommand::EnterCommandMode(true), None));
        map.push(bind(KeyCode::Esc, NONE, TuiCommand::EnterCommandMode(false), None));
        assert(map@ =~= default_bindings());
        Keybindings { map }
    }

    /// The command that `event` is bound to, if any.
    pub fn map_keyevent_to_tuicommand(&self, event: &KeyEvent) -> (r: Option<TuiCommand>)
        ensures
            r == bound_command(self.map@, *event),
    {
        let mut i: usize = 0;
        while i < self.map.len()
            invariant
                i <= self.map.len(),
                first_bound(self.map@, *event, 0) == first_bound(self.map@, *event, i as int),
            decreases self.map.len() - i,
        {
            if self.map[i].key.is_same_key(event) {
                return Some(self.map[i].command);
            }
            i += 1;
        }
        None
    }
}

/// Whether `label` is how the help names the key `code`: as the terminal
/// library writes it, and `Other` for a key that the interface does not
/// tell apart. Two keys have another name on one family of machines.
pub open spec fn is_key_label(code: KeyCode, label: Seq<char>) -> bool {
    match code {
        KeyCode::Backspace => label == "Backspace"@ || label == "Delete"@,
        KeyCode::Enter => label == "Enter"@ || label == "Return"@,
        KeyCode::Left => label == "Left"@,
        KeyCode::Right => label == "Right"@,
        KeyCode::Tab => label == "Tab"@,
        KeyCode::BackTab => label == "Back Tab"@,
        KeyCode::Char(c) => if c == ' ' {
            label == "Space"@
        } else {
            label == seq![c]
        },
        KeyCode::Esc => label == "Esc"@,
        KeyCode::Other => label == "Other"@,
    }
}

/// What is known of how the terminal library writes the modifiers
/// `modifiers`: nothing for none, and the names of shift, hyper and meta
/// where one of them is held alone.
pub open spec fn is_modifiers_label(modifiers: u8, label: Seq<char>) -> bool {
    &&& modifiers == 0 ==> label == ""@
    &&& modifiers == 1 ==> label == "Shift"@
    &&& modifiers == 16 ==> label == "Hyper"@
    &&& modifiers == 32 ==> label == "Meta"@
}

/// The name of the key `code` as the terminal library writes it.
///
/// Trusted: turns `code` into the terminal library's
/// `crossterm::event::KeyCode` and calls that type's `Display`. The
/// contract restates the names that `Display` writes for these keys; for
/// backspace and enter it writes another name on macOS, and the contract
/// allows both. `Other` is no key of the terminal library and is left
/// out.
#[verifier::external_body]
fn key_code_label(code: KeyCode) -> (label: String)
    requires
        !(code is Other),
    ensures
        is_key_label(code, label@),
{
    let code = match code {
        KeyCode::Backspace => event::KeyCode::Backspace,
        KeyCode::Enter => event::KeyCode::Enter,
        KeyCode::Left => event::KeyCode::Left,
        KeyCode::Right => event::KeyCode::Right,
        KeyCode::Tab => event::KeyCode::Tab,
        KeyCode::BackTab => event::KeyCode::BackTab,
        KeyCode::Char(c) => event::KeyCode::Char(c),
        KeyCode::Esc => event::KeyCode::Esc,
        KeyCode::Other => event::KeyCode::Null,
    };
    code.to_string()
}

/// The name of the key `code` in the help.
pub fn key_label(code: KeyCode) -> (label: String)
    ensures
        is_key_label(code, label@),
{
    match code {
        KeyCode::Other => String::from_str("Other"),
        _ => key_code_label(code),
    }
}

/// The names of the modifier keys in `modifiers`.
///
/// Trusted: makes the terminal library's `crossterm::event::KeyModifiers`
/// of the bits, dropping those that it has no name for, and calls that
/// type's `Display`, which writes the names of the keys held one after
/// another. The contract states the result for no key and for three keys
/// held alone whose names are the same on every machine.
#[verifier::external_body]
fn modifiers_label(modifiers: u8) -> (label: String)
    ensures
        is_modifiers_label(modifiers, label@),
{
    event::KeyModifiers::from_bits_truncate(modifiers).to_string()
}

/// A binding that the help shows: the key, what it does, and how the
/// terminal library writes the key and its modifiers.
pub struct HelpEntry {
    pub key: KeyEvent,
    pub description: &'static str,
    pub code_label: String,
    pub modifiers_label: String,
}

/// How the help writes a key: the blank as `space`, a character as
/// itself, any other key by its name, and after it a `+` and the
/// modifiers where any are held.
pub open spec fn key_text(key: KeyEvent, code_label: Seq<char>, modifiers_label: Seq<char>) -> Seq<
    char,
> {
    match key.code {
        KeyCode::Char(c) => if c == ' ' {
            "space"@
        } else if key.modifiers == NONE {
            seq![c]
        } else {
            seq![c] + seq!['+'] + modifiers_label
        },
        _ => if key.modifiers == NONE {
            code_label
        } else {
            code_label + seq!['+'] + modifiers_label
        },
    }
}

/// One line of the help: where the key works, the key, and what it does,
/// in columns of at least `width` characters with two blanks between.
pub open spec fn help_line(width: nat, key: Seq<char>, description: Seq<char>) -> Seq<char> {
    padded("global"@, width) + "  "@ + padded(key, width) + "  "@ + description
}

/// The line of the help for `entry`.
pub open spec fn entry_line(width: nat, entry: HelpEntry) -> Seq<char> {
    help_line(
        width,
        key_text(entry.key, entry.code_label@, entry.modifiers_label@),
        entry.description@,
    )
}

/// What the lines of the help are ordered by: what the keys do.
pub open spec fn entry_keys(entries: Seq<HelpEntry>) -> Seq<(u64, Seq<char>)> {
    Seq::new(entries.len(), |k: int| (0u64, entries[k].description@))
}

/// The lines of `entries` in the order `order`.
pub open spec fn ordered_lines(width: nat, entries: Seq<HelpEntry>, order: Seq<usize>) -> Seq<
    Seq<char>,
> {
    Seq::new(order.len(), |k: int| entry_line(width, entries[order[k] as int]))
}

/// Whether `text` is the help for `entries`: one line for each, ordered
/// by what the keys do, entries that do the same in the order of
/// `entries`, with a line break between the lines.
pub open spec fn is_help_text(entries: Seq<HelpEntry>, width: nat, text: Seq<char>) -> bool {
    exists|order: Seq<usize>|
        #![trigger is_sorted_order(entry_keys(entries), order)]
        is_sorted_order(entry_keys(entries), order) && text == joined(
            ordered_lines(width, entries, order),
            "\n"@,
        )
}

/// There is one help for a list of entries.
pub proof fn lemma_help_text_unique(
    entries: Seq<HelpEntry>,
    width: nat,
    a: Seq<char>,
    b: Seq<char>,
)
    requires
        is_help_text(entries, width, a),
        is_help_text(entries, width, b),
    ensures
        a == b,
{
    let keys = entry_keys(entries);
    let oa = choose|order: Seq<usize>|
        #![trigger is_sorted_order(keys, order)]
        is_sorted_order(keys, order) && a == joined(ordered_lines(width, entries, order), "\n"@);
    let ob = choose|order: Seq<usize>|
        #![trigger is_sorted_order(keys, order)]
        is_sorted_order(keys, order) && b == joined(ordered_lines(width, entries, order), "\n"@);
    crate::sorting::lemma_sorted_order_unique(keys, oa, ob);
}

/// The places of the bindings of `bindings` that the help shows, those
/// that say what they do, in the order of the table.
pub open spec fn described(bindings: Seq<KeyBinding>) -> Seq<int>
    decreases bindings.len(),
{
    if bindings.len() == 0 {
        Seq::empty()
    } else if bindings.last().help is Some {
        described(bindings.drop_last()).push(bindings.len() - 1)
    } else {
        described(bindings.drop_last())
    }
}

/// Whether `entries` are the bindings of `bindings` that the help shows,
/// in the order of the table, each with the names of its key as the
/// terminal library writes them.
pub open spec fn entries_fit(bindings: Seq<KeyBinding>, entries: Seq<HelpEntry>) -> bool {
    let d = described(bindings);
    &&& entries.len() == d.len()
    &&& forall|k: int|
        0 <= k < entries.len() ==> {
            &&& 0 <= d[k] < bindings.len()
            &&& (#[trigger] entries[k]).key == bindings[d[k]].key
            &&& bindings[d[k]].help == Some(entries[k].description)
            &&& is_key_label(entries[k].key.code, entries[k].code_label@)
            &&& is_modifiers_label(entries[k].key.modifiers, entries[k].modifiers_label@)
        }
}

/// Writes a key as the help shows it.
pub fn format_key(key: &KeyEvent, code_label: &str, modifiers_label: &str) -> (out: Vec<char>)
    ensures
        out@ == key_text(*key, code_label@, modifiers_label@),
{
    let mut out: Vec<char> = Vec::new();
    match key.code {
        KeyCode::Char(c) => {
            if c == ' ' {
                push_str(&mut out, "space");
                return out;
            }
            out.push(c);
        },
        _ => {
            push_str(&mut out, code_label);
        },
    }
    if key.modifiers != NONE {
        out.push('+');
        push_str(&mut out, modifiers_label);
    }
    out
}

/// Appends the line of the help for `entry` to `out`.
pub fn push_entry_line(out: &mut Vec<char>, entry: &HelpEntry, min_width: usize)
    ensures
        final(out)@ == old(out)@ + entry_line(min_width as nat, *entry),
{
    let key = format_key(&entry.key, entry.code_label.as_str(), entry.modifiers_label.as_str());
    let global = chars_of("global");
    push_padded(out, &global, min_width);
    push_str(out, "  ");
    push_padded(out, &key, min_width);
    push_str(out, "  ");
    push_str(out, entry.description);
}

/// Writes the help for `entries`.
pub fn format_help(entries: &Vec<HelpEntry>, min_width: usize) -> (r: String)
    ensures
        is_help_text(entries@, min_width as nat, r@),
{
    let mut keys: Vec<SortKey> = Vec::new();
    let mut i: usize = 0;
    while i < entries.len()
        invariant
            i <= entries.len(),
            keys.len() == i,
            forall|k: int| 0 <= k < i ==> (#[trigger] keys[k])@ == (0u64, entries[k].description@),
        decreases entries.len() - i,
    {
        keys.push(SortKey { rank: 0, text: chars_of(entries[i].description) });
        i += 1;
    }
    assert(key_views(keys@) =~= entry_keys(entries@));
    let order = sorted_order(&keys);
    let ghost width = min_width as nat;
    let mut out: Vec<char> = Vec::new();
    let mut k: usize = 0;
    proof {
        reveal_strlit("\n");
    }
    while k < order.len()
        invariant
            k <= order.len(),
            width == min_width as nat,
            "\n"@ == seq!['\n'],
            is_sorted_order(entry_keys(entries@), order@),
            out@ == joined(ordered_lines(width, entries@, order@.take(k as int)), "\n"@),
        decreases order.len() - k,
    {
        let ghost before = out@;
        let ghost lines = ordered_lines(width, entries@, order@.take(k as int));
        let ghost more = ordered_lines(width, entries@, order@.take(k + 1));
        if k > 0 {
            out.push('\n');
        }
        push_entry_line(&mut out, &entries[order[k]], min_width);
        proof {
            assert(more.drop_last() =~= lines);
            assert(more.last() == entry_line(width, entries@[order@[k as int] as int]));
            if k > 0 {
                assert(out@ =~= before + "\n"@ + more.last());
            } else {
                assert(lines.len() == 0);
                assert(out@ =~= more.last());
            }
        }
        k += 1;
    }
    assert(order@.take(k as int) == order@);
    string_of(&out)
}

impl Keybindings {
    /// The bindings that the help shows, with the names of their keys.
    pub fn help_entries(&self) -> (entries: Vec<HelpEntry>)
        ensures
            entries_fit(self.map@, entries@),
    {
        let mut entries: Vec<HelpEntry> = Vec::new();
        let mut i: usize = 0;
        while i < self.map.len()
            invariant
                i <= self.map.len(),
                entries_fit(self.map@.take(i as int), entries@),
            decreases self.map.len() - i,
        {
            let ghost before = entries@;
            let ghost so_far = self.map@.take(i as int);
            let ghost next = self.map@.take(i + 1);
            let b = &self.map[i];
            proof {
                assert(next.drop_last() =~= so_far);
                assert(next.last() == self.map@[i as int]);
            }
            match b.help {
                Some(description) => {
                    entries.push(
                        HelpEntry {
                            key: b.key,
                            description,
                            code_label: key_label(b.key.code),
                            modifiers_label: modifiers_label(b.key.modifiers),
                        },
                    );
                    proof {
                        let d = described(next);
                        assert(d == described(so_far).push(i as int));
                        assert forall|k: int| 0 <= k < entries.len() implies {
                            &&& 0 <= d[k] < next.len()
                            &&& (#[trigger] entries[k]).key == next[d[k]].key
                            &&& next[d[k]].help == Some(entries[k].description)
                            &&& is_key_label(entries[k].key.code, entries[k].code_label@)
                            &&& is_modifiers_label(entries[k].key.modifiers, entries[k].modifiers_label@)
                        } by {
                            if k < before.len() {
                                assert(entries[k] == before[k]);
                                assert(d[k] == described(so_far)[k]);
                                assert(next[d[k]] == so_far[d[k]]);
                            }
                        }
                    }
                },
                None => {
                    proof {
                        let d = described(next);
                        assert(d == described(so_far));
                        assert forall|k: int| 0 <= k < entries.len() implies {
                            &&& 0 <= d[k] < next.len()
                            &&& (#[trigger] entries[k]).key == next[d[k]].key
                            &&& next[d[k]].help == Some(entries[k].description)
                            &&& is_key_label(entries[k].key.code, entries[k].code_label@)
                            &&& is_modifiers_label(entries[k].key.modifiers, entries[k].modifiers_label@)
                        } by {
                            assert(next[d[k]] == so_far[d[k]]);
                        }
                    }
                },
            }
            i += 1;
        }
        assert(self.map@.take(i as int) == self.map@);
        entries
    }

    /// The help on the keys: a line for each binding that says what it
    /// does, ordered by that, in columns of at least `min_width`
    /// characters. How a key is named is up to the terminal library.
    pub fn generate_help_str(&self, min_width: usize) -> (r: String)
        ensures
            exists|entries: Seq<HelpEntry>| #[trigger]
                entries_fit(self.map@, entries) && is_help_text(entries, min_width as nat, r@),
    {
        let entries = self.help_entries();
        format_help(&entries, min_width)
    }
}

} // verus!
