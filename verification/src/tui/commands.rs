//! The command language: a line of text read as a command, and the
//! completion of a partly typed command name.

use crate::number::{
    clock_millis_of, fits_i64, fits_u64, millis_of, parse_clock_millis, parse_i64, parse_millis,
    parse_signed_millis, parse_u64, signed_millis_of, signed_of, unsigned_of,
};
use crate::sorting::{key_views, lists, sorted_order, SortKey};
use crate::text::{chars_of, is_prefix, lex_less, split_words, starts_with, views, word_is, words};
use vstd::prelude::*;

verus! {

/// What the terminal interface can be told to do. Times are in
/// milliseconds.
#[derive(Debug, Clone, Copy, PartialEq, Eq, Structural)]
pub enum TuiCommand {
    /// Show another view.
    State(TuiState),
    Quit,
    /// Change the volume by this much.
    Volume(i64),
    /// Set the volume to this.
    SetVolume(i64),
    /// Move the position by this much.
    Seek(i64),
    /// Move the position to this.
    SetPosition(u64),
    PlayPause,
    NextChapter,
    PrevChapter,
    /// Open the command line, or close it.
    EnterCommandMode(bool),
    /// Pause once this many minutes have passed.
    PauseAfter(u64),
    /// Quit once this many minutes have passed.
    QuitAfter(u64),
    /// Scroll the view by this many lines.
    Scroll(i16),
}

/// The views of the terminal interface.
#[derive(Debug, Clone, Copy, PartialEq, Eq, Structural)]
pub enum TuiState {
    Player,
    Chapters,
    Help,
}

/// The lowest volume change that a command can ask for.
pub const VOLUME_DELTA_MIN: i64 = -200;

/// The highest volume that a command can ask for, and the highest change.
pub const VOLUME_MAX: i64 = 200;

/// `v`, or the nearer of `lo` and `hi` where `v` lies outside them.
pub open spec fn clamped(v: int, lo: int, hi: int) -> int {
    if v < lo {
        lo
    } else if v > hi {
        hi
    } else {
        v
    }
}

/// What `vol` makes of its argument: with a sign a change of the volume,
/// held to -200..=200, without one a volume, held to 0..=200.
pub open spec fn volume_command(arg: Seq<char>) -> Option<TuiCommand> {
    match signed_of(arg) {
        Some(v) => if arg[0] == '-' || arg[0] == '+' {
            Some(TuiCommand::Volume(clamped(v as int, VOLUME_DELTA_MIN as int, VOLUME_MAX as int) as i64))
        } else {
            Some(TuiCommand::SetVolume(clamped(v as int, 0, VOLUME_MAX as int) as i64))
        },
        None => None,
    }
}

/// What `seek` makes of its argument: with a sign a move by that many
/// seconds, without one a move to that second, which may also be written
/// as `hours:minutes:seconds`.
pub open spec fn seek_command(arg: Seq<char>) -> Option<TuiCommand> {
    if arg.len() > 0 && (arg[0] == '-' || arg[0] == '+') {
        match fits_i64(signed_millis_of(arg)) {
            Some(v) => Some(TuiCommand::Seek(v)),
            None => None,
        }
    } else {
        match fits_u64(millis_of(arg)) {
            Some(v) => Some(TuiCommand::SetPosition(v)),
            None => match fits_u64(clock_millis_of(arg)) {
                Some(v) => Some(TuiCommand::SetPosition(v)),
                None => None,
            },
        }
    }
}

/// What `pause-after` makes of its argument, a number of minutes.
pub open spec fn pause_after_command(arg: Seq<char>) -> Option<TuiCommand> {
    match unsigned_of(arg) {
        Some(v) => Some(TuiCommand::PauseAfter(v)),
        None => None,
    }
}

/// What `quit-after` makes of its argument, a number of minutes.
pub open spec fn quit_after_command(arg: Seq<char>) -> Option<TuiCommand> {
    match unsigned_of(arg) {
        Some(v) => Some(TuiCommand::QuitAfter(v)),
        None => None,
    }
}

/// What `view` makes of its argument, the name of a view.
pub open spec fn view_command(arg: Seq<char>) -> Option<TuiCommand> {
    if arg == "player"@ {
        Some(TuiCommand::State(TuiState::Player))
    } else if arg == "chapters"@ {
        Some(TuiCommand::State(TuiState::Chapters))
    } else if arg == "help"@ {
        Some(TuiCommand::State(TuiState::Help))
    } else {
        None
    }
}

/// The command that the name `name` and the argument `arg` stand for.
/// Names that take no argument pay no heed to one; the others need one.
pub open spec fn command_of(name: Seq<char>, arg: Option<Seq<char>>) -> Option<TuiCommand> {
    if name == "quit"@ || name == "q"@ {
        Some(TuiCommand::Quit)
    } else if name == "play-pause"@ {
        Some(TuiCommand::PlayPause)
    } else if name == "play-next"@ {
        Some(TuiCommand::NextChapter)
    } else if name == "play-prev"@ {
        Some(TuiCommand::PrevChapter)
    } else if arg is None {
        None
    } else if name == "vol"@ {
        volume_command(arg->0)
    } else if name == "seek"@ {
        seek_command(arg->0)
    } else if name == "pause-after"@ {
        pause_after_command(arg->0)
    } else if name == "quit-after"@ {
        quit_after_command(arg->0)
    } else if name == "view"@ {
        view_command(arg->0)
    } else {
        None
    }
}

/// The command that a line of text stands for: one word or two, the first
/// the name of a command and the second its argument. A line of no words,
/// or of more than two, stands for none.
pub open spec fn parse_command(line: Seq<char>) -> Option<TuiCommand> {
    let w = words(line);
    if w.len() == 1 {
        command_of(w[0], None)
    } else if w.len() == 2 {
        command_of(w[0], Some(w[1]))
    } else {
        None
    }
}

fn quit() -> (r: Option<TuiCommand>)
    ensures
        r == Some(TuiCommand::Quit),
{
    Some(TuiCommand::Quit)
}

fn seek(arg: &Vec<char>) -> (r: Option<TuiCommand>)
    ensures
        r == seek_command(arg@),
{
    if arg.len() > 0 && (arg[0] == '-' || arg[0] == '+') {
        match parse_signed_millis(arg) {
            Some(offset) => Some(TuiCommand::Seek(offset)),
            None => None,
        }
    } else {
        match parse_millis(arg) {
            Some(pos) => Some(TuiCommand::SetPosition(pos)),
            None => match parse_clock_millis(arg) {
                Some(pos) => Some(TuiCommand::SetPosition(pos)),
                None => None,
            },
        }
    }
}

fn vol(arg: &Vec<char>) -> (r: Option<TuiCommand>)
    ensures
        r == volume_command(arg@),
{
    match parse_i64(arg) {
        None => None,
        Some(volume) => {
            if arg[0] == '-' || arg[0] == '+' {
                let v = if volume < VOLUME_DELTA_MIN {
                    VOLUME_DELTA_MIN
                } else if volume > VOLUME_MAX {
                    VOLUME_MAX
                } else {
                    volume
                };
                Some(TuiCommand::Volume(v))
            } else {
                let v = if volume < 0 {
                    0
                } else if volume > VOLUME_MAX {
                    VOLUME_MAX
                } else {
                    volume
                };
                Some(TuiCommand::SetVolume(v))
            }
        },
    }
}

fn playpause() -> (r: Option<TuiCommand>)
    ensures
        r == Some(TuiCommand::PlayPause),
{
    Some(TuiCommand::PlayPause)
}

fn playnext() -> (r: Option<TuiCommand>)
    ensures
        r == Some(TuiCommand::NextChapter),
{
    Some(TuiCommand::NextChapter)
}

fn playprev() -> (r: Option<TuiCommand>)
    ensures
        r == Some(TuiCommand::PrevChapter),
{
    Some(TuiCommand::PrevChapter)
}

fn pauseafter(arg: &Vec<char>) -> (r: Option<TuiCommand>)
    ensures
        r == pause_after_command(arg@),
{
    match parse_u64(arg) {
        Some(time_min) => Some(TuiCommand::PauseAfter(time_min)),
        None => None,
    }
}

fn quitafter(arg: &Vec<char>) -> (r: Option<TuiCommand>)
    ensures
        r == quit_after_command(arg@),
{
    match parse_u64(arg) {
        Some(time_min) => Some(TuiCommand::QuitAfter(time_min)),
        None => None,
    }
}

fn view(arg: &Vec<char>) -> (r: Option<TuiCommand>)
    ensures
        r == view_command(arg@),
{
    if word_is(arg, "player") {
        Some(TuiCommand::State(TuiState::Player))
    } else if word_is(arg, "chapters") {
        Some(TuiCommand::State(TuiState::Chapters))
    } else if word_is(arg, "help") {
        Some(TuiCommand::State(TuiState::Help))
    } else {
        None
    }
}

/// Reads a line of text as a command.
pub fn map_str_to_tuicommand(line: &str) -> (r: Option<TuiCommand>)
    ensures
        r == parse_command(line@),
{
    let chars = chars_of(line);
    let w = split_words(&chars);
    assert(views(w@) == words(line@));
    if w.len() == 0 || w.len() > 2 {
        return None;
    }
    let name = &w[0];
    assert(name@ == words(line@)[0]);
    if word_is(name, "quit") || word_is(name, "q") {
        return quit();
    }
    if word_is(name, "play-pause") {
        return playpause();
    }
    if word_is(name, "play-next") {
        return playnext();
    }
    if word_is(name, "play-prev") {
        return playprev();
    }
    if w.len() < 2 {
        return None;
    }
    let arg = &w[1];
    assert(arg@ == words(line@)[1]);
    if word_is(name, "vol") {
        vol(arg)
    } else if word_is(name, "seek") {
        seek(arg)
    } else if word_is(name, "pause-after") {
        pauseafter(arg)
    } else if word_is(name, "quit-after") {
        quitafter(arg)
    } else if word_is(name, "view") {
        view(arg)
    } else {
        None
    }
}

/// The character sequences that the texts of `v` hold.
pub open spec fn str_views(v: Seq<&'static str>) -> Seq<Seq<char>> {
    Seq::new(v.len(), |i: int| v[i]@)
}

/// The names of the commands.
pub open spec fn command_name_list() -> Seq<Seq<char>> {
    seq![
        "quit"@,
        "q"@,
        "vol"@,
        "seek"@,
        "play-pause"@,
        "play-next"@,
        "play-prev"@,
        "pause-after"@,
        "quit-after"@,
        "view"@,
    ]
}

/// No name of a command is listed twice.
pub proof fn lemma_command_names_distinct()
    ensures
        forall|i: int, j: int|
            0 <= i < j < command_name_list().len() ==> command_name_list()[i]
                != command_name_list()[j],
{
    reveal_strlit("quit");
    reveal_strlit("q");
    reveal_strlit("vol");
    reveal_strlit("seek");
    reveal_strlit("play-pause");
    reveal_strlit("play-next");
    reveal_strlit("play-prev");
    reveal_strlit("pause-after");
    reveal_strlit("quit-after");
    reveal_strlit("view");
    let l = command_name_list();
    assert(l[0][0] == 'q' && l[3][0] == 's' && l[9][0] == 'v');
    assert(l[4][0] == 'p' && l[8][0] == 'q');
    assert(l[5][5] == 'n' && l[6][5] == 'p');
    assert(l[0].len() == 4 && l[1].len() == 1 && l[2].len() == 3 && l[3].len() == 4);
    assert(l[4].len() == 10 && l[5].len() == 9 && l[6].len() == 9 && l[7].len() == 11);
    assert(l[8].len() == 10 && l[9].len() == 4);
}

/// What is not the name of a command stands for no command, whatever its
/// argument.
pub proof fn lemma_unlisted_names_are_no_commands(name: Seq<char>, arg: Option<Seq<char>>)
    requires
        !command_name_list().contains(name),
    ensures
        command_of(name, arg) is None,
{
    let l = command_name_list();
    assert(l[0] == "quit"@ && l[1] == "q"@ && l[2] == "vol"@ && l[3] == "seek"@);
    assert(l[4] == "play-pause"@ && l[5] == "play-next"@ && l[6] == "play-prev"@);
    assert(l[7] == "pause-after"@ && l[8] == "quit-after"@ && l[9] == "view"@);
    assert forall|i: int| 0 <= i < l.len() implies #[trigger] l[i] != name by {
        assert(l.contains(l[i]));
    }
}

/// The names of the commands, as [`command_name_list`] gives them.
pub fn command_names() -> (names: Vec<&'static str>)
    ensures
        str_views(names@) == command_name_list(),
{
    let mut names: Vec<&'static str> = Vec::new();
    names.push("quit");
    names.push("q");
    names.push("vol");
    names.push("seek");
    names.push("play-pause");
    names.push("play-next");
    names.push("play-prev");
    names.push("pause-after");
    names.push("quit-after");
    names.push("view");
    assert(str_views(names@) =~= command_name_list());
    names
}

/// How many characters must be put after `from` to arrive at `to`: none
/// where `to` does not begin with `from`, or where they are more than 255.
pub open spec fn insertion_distance(from: Seq<char>, to: Seq<char>) -> Option<u8> {
    if is_prefix(from, to) && to.len() - from.len() <= 255 {
        Some((to.len() - from.len()) as u8)
    } else {
        None
    }
}

/// Counts the characters that must be put after `from` to arrive at `to`.
pub fn calculate_insertion_distance(from: &str, to: &str) -> (r: Option<u8>)
    ensures
        r == insertion_distance(from@, to@),
{
    let f = chars_of(from);
    let t = chars_of(to);
    if !starts_with(&t, &f) {
        return None;
    }
    let insertions = t.len() - f.len();
    if insertions > 255 {
        None
    } else {
        Some(insertions as u8)
    }
}

/// Whether the name `a` is suggested before the name `b` for the typed
/// text `partial`: fewer characters are left to type, or as many and `a`
/// comes first in dictionary order.
pub open spec fn suggestion_before(partial: Seq<char>, a: Seq<char>, b: Seq<char>) -> bool {
    let left_a = a.len() - partial.len();
    let left_b = b.len() - partial.len();
    left_a < left_b || (left_a == left_b && lex_less(a, b))
}

/// Whether `name` is a command name that begins with `partial`.
pub open spec fn completes(partial: Seq<char>, name: Seq<char>) -> bool {
    command_name_list().contains(name) && insertion_distance(partial, name) is Some
}

/// Whether `out` is the list of suggestions for the typed text `partial`:
/// the command names that begin with it, each once, those with the least
/// left to type first and names with as much left in dictionary order.
pub open spec fn is_suggestion_list(partial: Seq<char>, out: Seq<Seq<char>>) -> bool {
    &&& forall|i: int| 0 <= i < out.len() ==> completes(partial, #[trigger] out[i])
    &&& forall|name: Seq<char>| #[trigger] completes(partial, name) ==> out.contains(name)
    &&& forall|i: int, j: int|
        0 <= i < j < out.len() ==> suggestion_before(partial, #[trigger] out[i], #[trigger] out[j])
}

/// There is one list of suggestions for a typed text.
pub proof fn lemma_suggestion_list_unique(partial: Seq<char>, a: Seq<Seq<char>>, b: Seq<Seq<char>>)
    requires
        is_suggestion_list(partial, a),
        is_suggestion_list(partial, b),
    ensures
        a == b,
{
    let before = |x: Seq<char>, y: Seq<char>| suggestion_before(partial, x, y);
    assert forall|x: Seq<char>| !#[trigger] before(x, x) by {
        crate::text::lemma_lex_less_irreflexive(x);
    }
    assert forall|x: Seq<char>, y: Seq<char>, z: Seq<char>| #[trigger]
        before(x, y) && #[trigger] before(y, z) implies before(x, z) by {
        if x.len() == y.len() && y.len() == z.len() {
            crate::text::lemma_lex_less_transitive(x, y, z);
        }
    }
    assert forall|x: Seq<char>| a.contains(x) <==> b.contains(x) by {
        if a.contains(x) {
            let i = choose|i: int| 0 <= i < a.len() && a[i] == x;
            assert(completes(partial, a[i]));
        }
        if b.contains(x) {
            let i = choose|i: int| 0 <= i < b.len() && b[i] == x;
            assert(completes(partial, b[i]));
        }
    }
    crate::sorting::lemma_sorted_lists_equal(before, a, b);
}

/// The list of suggestions for the typed text `partial`: the one list
/// that [`is_suggestion_list`] describes.
pub open spec fn suggestions_for(partial: Seq<char>) -> Seq<Seq<char>> {
    choose|out: Seq<Seq<char>>| is_suggestion_list(partial, out)
}

/// The command names that complete the typed text, in the order in which
/// they are offered.
pub fn generate_completion_suggestions(command_text: &str) -> (out: Vec<&'static str>)
    ensures
        is_suggestion_list(command_text@, str_views(out@)),
        str_views(out@) == suggestions_for(command_text@),
{
    let names = command_names();
    let ghost partial = command_text@;
    let ghost all = command_name_list();
    let mut found: Vec<&'static str> = Vec::new();
    let mut keys: Vec<SortKey> = Vec::new();
    // where in `all` each entry of `found` stands
    let ghost mut src: Seq<int> = Seq::empty();
    let mut t: usize = 0;
    proof {
        lemma_command_names_distinct();
    }
    while t < names.len()
        invariant
            partial == command_text@,
            all == command_name_list(),
            str_views(names@) == all,
            names.len() == all.len(),
            t <= names.len(),
            found.len() == keys.len(),
            found.len() == src.len(),
            forall|i: int| 0 <= i < src.len() ==> 0 <= #[trigger] src[i] < t,
            forall|i: int, j: int| 0 <= i < j < src.len() ==> #[trigger] src[i] < #[trigger] src[j],
            forall|i: int| 0 <= i < found.len() ==> (#[trigger] found[i])@ == all[src[i]],
            forall|i: int|
                0 <= i < found.len() ==> insertion_distance(partial, #[trigger] all[src[i]]) is Some,
            forall|i: int|
                0 <= i < keys.len() ==> (#[trigger] keys[i]).text@ == all[src[i]] && keys[i].rank
                    == all[src[i]].len() - partial.len(),
            forall|j: int|
                0 <= j < t && insertion_distance(partial, #[trigger] all[j]) is Some
                    ==> src.contains(j),
        decreases names.len() - t,
    {
        let name = names[t];
        assert(name@ == str_views(names@)[t as int]);
        match calculate_insertion_distance(command_text, name) {
            Some(dist) => {
                let ghost src_before = src;
                found.push(name);
                keys.push(SortKey { rank: dist as u64, text: chars_of(name) });
                proof {
                    src = src.push(t as int);
                    assert forall|j: int|
                        0 <= j < t + 1 && insertion_distance(
                            partial,
                            #[trigger] all[j],
                        ) is Some implies src.contains(j) by {
                        if j < t {
                            let i0 = choose|i: int| 0 <= i < src_before.len() && src_before[i] == j;
                            assert(src[i0] == j);
                        } else {
                            assert(src[src.len() - 1] == j);
                        }
                    }
                }
            },
            None => {},
        }
        t += 1;
    }
    let order = sorted_order(&keys);
    let mut out: Vec<&'static str> = Vec::new();
    let mut i: usize = 0;
    while i < order.len()
        invariant
            i <= order.len(),
            out.len() == i,
            order.len() == found.len(),
            forall|k: int| 0 <= k < order.len() ==> 0 <= #[trigger] order[k] < found.len(),
            forall|k: int| 0 <= k < i ==> #[trigger] out[k] == found[order[k] as int],
        decreases order.len() - i,
    {
        out.push(found[order[i]]);
        i += 1;
    }
    proof {
        let shown = str_views(out@);
        assert forall|k: int| 0 <= k < shown.len() implies completes(partial, #[trigger] shown[k]) by {
            let f = order[k] as int;
            assert(shown[k] == found[f]@);
            assert(all[src[f]] == found[f]@);
            assert(all.contains(found[f]@));
        }
        assert forall|name: Seq<char>| #[trigger] completes(partial, name) implies shown.contains(
            name,
        ) by {
            let j = choose|j: int| 0 <= j < all.len() && all[j] == name;
            assert(src.contains(j));
            let f = choose|f: int| 0 <= f < src.len() && src[f] == j;
            assert(found[f]@ == name);
            assert(lists(order@, f));
            let k = choose|k: int| 0 <= k < order.len() && #[trigger] order[k] == f;
            assert(shown[k] == name);
        }
        assert forall|a: int, b: int| 0 <= a < b < shown.len() implies suggestion_before(
            partial,
            #[trigger] shown[a],
            #[trigger] shown[b],
        ) by {
            let fa = order[a] as int;
            let fb = order[b] as int;
            assert(shown[a] == found[fa]@ && shown[b] == found[fb]@);
            assert(keys[fa].text@ == all[src[fa]] && keys[fb].text@ == all[src[fb]]);
            assert(crate::sorting::entry_before(key_views(keys@), fa, fb));
            crate::sorting::lemma_entry_before_irreflexive(key_views(keys@), fa);
            assert(fa != fb);
            if fa < fb {
                assert(src[fa] < src[fb]);
            } else {
                assert(src[fb] < src[fa]);
            }
            assert(all[src[fa]] != all[src[fb]]);
        }
        assert(is_suggestion_list(partial, shown));
        lemma_suggestion_list_unique(partial, shown, suggestions_for(partial));
    }
    out
}

} // verus!
