//! What the views show, as text. Times are taken in milliseconds and
//! shown in whole seconds.

use crate::libmpv_handler::{chapter_views, current_view, text_view, Chapter, CurrentChapter};
use crate::number::{decimal_digits, push_decimal};
use crate::position::PlaybackPosition;
use crate::text::{joined, push_chars, push_str, string_of};
use crate::timer::{TimerKind, TimerSet};
use crate::tui::{hms_text, push_hms};
use vstd::prelude::*;

verus! {

/// The digits that write `v`, with a minus sign where it is negative.
pub open spec fn signed_digits(v: int) -> Seq<char> {
    if v < 0 {
        seq!['-'] + decimal_digits((-v) as nat)
    } else {
        decimal_digits(v as nat)
    }
}

/// Appends the digits of `v`, with its sign where it is negative.
pub fn push_signed(out: &mut Vec<char>, v: i64)
    ensures
        final(out)@ == old(out)@ + signed_digits(v as int),
{
    if v < 0 {
        out.push('-');
        let magnitude: u64 = (-(v + 1)) as u64 + 1;
        push_decimal(out, magnitude);
    } else {
        push_decimal(out, v as u64);
    }
}

/// The text `o`, or none where it is missing.
pub open spec fn text_or_empty(o: Option<Seq<char>>) -> Seq<char> {
    match o {
        Some(t) => t,
        None => Seq::empty(),
    }
}

/// The title of the chapter `o`, or none where no chapter plays.
pub open spec fn chapter_title(o: Option<(Seq<char>, usize)>) -> Seq<char> {
    match o {
        Some(c) => c.0,
        None => Seq::empty(),
    }
}

/// The sign for the transport: `>` while the file plays, `|` while it is
/// paused or not ready.
pub open spec fn transport_symbol(position: PlaybackPosition) -> Seq<char> {
    if position.ready && !position.paused {
        ">"@
    } else {
        "|"@
    }
}

/// The player view: the title, the artist, the chapter, and a line with
/// the transport sign, the position out of the length, and the volume.
pub open spec fn player_text(
    title: Seq<char>,
    artist: Option<Seq<char>>,
    chapter: Option<(Seq<char>, usize)>,
    position: PlaybackPosition,
    volume: i64,
    now: u64,
) -> Seq<char> {
    title + "\n"@ + text_or_empty(artist) + "\n"@ + chapter_title(chapter) + "\n"@
        + transport_symbol(position) + " "@ + hms_text((position.time_at(now) / 1000) as nat)
        + " / "@ + hms_text((position.duration / 1000) as nat) + " vol: "@ + signed_digits(
        volume as int,
    )
}

/// Writes the player view.
pub fn format_player(
    title: &str,
    artist: &Option<String>,
    chapter: &Option<CurrentChapter>,
    position: &PlaybackPosition,
    volume: i64,
    now: u64,
) -> (out: Vec<char>)
    ensures
        out@ == player_text(
            title@,
            text_view(*artist),
            current_view(*chapter),
            *position,
            volume,
            now,
        ),
{
    let mut out: Vec<char> = Vec::new();
    push_str(&mut out, title);
    push_str(&mut out, "\n");
    match artist {
        Some(a) => {
            push_str(&mut out, a.as_str());
        },
        None => {},
    }
    push_str(&mut out, "\n");
    match chapter {
        Some(c) => {
            push_str(&mut out, c.title.as_str());
        },
        None => {},
    }
    push_str(&mut out, "\n");
    if position.ready && !position.paused {
        push_str(&mut out, ">");
    } else {
        push_str(&mut out, "|");
    }
    push_str(&mut out, " ");
    push_hms(&mut out, position.current_time(now) / 1000);
    push_str(&mut out, " / ");
    push_hms(&mut out, position.duration / 1000);
    push_str(&mut out, " vol: ");
    push_signed(&mut out, volume);
    out
}

/// Where chapter `i` of `chapters` ends: where the next begins, and the
/// last at the end of the file.
pub open spec fn chapter_end(chapters: Seq<(Seq<char>, u64)>, duration: u64, i: int) -> u64 {
    if i + 1 < chapters.len() {
        chapters[i + 1].1
    } else {
        duration
    }
}

/// Where each chapter begins and ends: every chapter but the last ends
/// where the next begins, and the last at the end of the file.
pub fn chapter_spans(chapters: &Vec<Chapter>, duration: u64) -> (spans: Vec<(u64, u64)>)
    ensures
        spans.len() == chapters.len(),
        forall|i: int|
            0 <= i < spans.len() ==> (#[trigger] spans[i]).0 == chapters[i].time && spans[i].1
                == chapter_end(chapter_views(chapters@), duration, i),
        forall|i: int| 0 <= i < spans.len() - 1 ==> (#[trigger] spans[i]).1 == spans[i + 1].0,
        spans.len() > 0 ==> spans[spans.len() - 1].1 == duration,
{
    let ghost model = chapter_views(chapters@);
    let mut spans: Vec<(u64, u64)> = Vec::new();
    let mut i: usize = 0;
    while i < chapters.len()
        invariant
            i <= chapters.len(),
            model == chapter_views(chapters@),
            spans.len() == i,
            forall|k: int|
                0 <= k < i ==> (#[trigger] spans[k]).0 == chapters[k].time && spans[k].1
                    == chapter_end(model, duration, k),
        decreases chapters.len() - i,
    {
        let end = if i + 1 < chapters.len() {
            chapters[i + 1].time
        } else {
            duration
        };
        proof {
            if i + 1 < chapters.len() {
                assert(model[i + 1] == chapters@[i + 1]@);
            }
        }
        spans.push((chapters[i].time, end));
        i += 1;
    }
    proof {
        assert forall|k: int| 0 <= k < spans.len() - 1 implies (#[trigger] spans[k]).1 == spans[k
            + 1].0 by {
            assert(model[k + 1] == chapters@[k + 1]@);
        }
    }
    spans
}

/// The line of chapter `i` in the chapters view: a mark where it is the
/// one that plays, its title, and where it begins and ends.
pub open spec fn chapter_line(
    chapters: Seq<(Seq<char>, u64)>,
    current: Option<(Seq<char>, usize)>,
    duration: u64,
    i: int,
) -> Seq<char> {
    (if current matches Some(c) && c.1 == i {
        "> "@
    } else {
        "  "@
    }) + chapters[i].0 + "  "@ + hms_text((chapters[i].1 / 1000) as nat) + " - "@ + hms_text(
        (chapter_end(chapters, duration, i) / 1000) as nat,
    )
}

/// The lines of the first `n` chapters.
pub open spec fn chapter_lines(
    chapters: Seq<(Seq<char>, u64)>,
    current: Option<(Seq<char>, usize)>,
    duration: u64,
    n: int,
) -> Seq<Seq<char>> {
    Seq::new(n as nat, |i: int| chapter_line(chapters, current, duration, i))
}

/// The chapters view: a line for each chapter, in their order.
pub open spec fn chapters_text(
    chapters: Seq<(Seq<char>, u64)>,
    current: Option<(Seq<char>, usize)>,
    duration: u64,
) -> Seq<char> {
    joined(chapter_lines(chapters, current, duration, chapters.len() as int), "\n"@)
}

/// Appends the line of chapter `i` to `out`.
pub fn push_chapter_line(
    out: &mut Vec<char>,
    chapters: &Vec<Chapter>,
    current: &Option<CurrentChapter>,
    duration: u64,
    i: usize,
)
    requires
        i < chapters.len(),
    ensures
        final(out)@ == old(out)@ + chapter_line(
            chapter_views(chapters@),
            current_view(*current),
            duration,
            i as int,
        ),
{
    let ghost model = chapter_views(chapters@);
    let marked = match current {
        Some(c) => c.index == i,
        None => false,
    };
    if marked {
        push_str(out, "> ");
    } else {
        push_str(out, "  ");
    }
    push_str(out, chapters[i].title.as_str());
    push_str(out, "  ");
    push_hms(out, chapters[i].time / 1000);
    push_str(out, " - ");
    let end = if i + 1 < chapters.len() {
        chapters[i + 1].time
    } else {
        duration
    };
    push_hms(out, end / 1000);
    proof {
        assert(model[i as int] == chapters@[i as int]@);
        if i + 1 < chapters.len() {
            assert(model[i + 1] == chapters@[i + 1]@);
        }
    }
}

/// Writes the chapters view.
pub fn format_chapters(chapters: &Vec<Chapter>, current: &Option<CurrentChapter>, duration: u64) -> (out:
    Vec<char>)
    ensures
        out@ == chapters_text(chapter_views(chapters@), current_view(*current), duration),
{
    let ghost model = chapter_views(chapters@);
    let ghost cur = current_view(*current);
    let mut out: Vec<char> = Vec::new();
    let mut i: usize = 0;
    proof {
        reveal_strlit("\n");
    }
    while i < chapters.len()
        invariant
            i <= chapters.len(),
            model == chapter_views(chapters@),
            cur == current_view(*current),
            "\n"@ == seq!['\n'],
            out@ == joined(chapter_lines(model, cur, duration, i as int), "\n"@),
        decreases chapters.len() - i,
    {
        let ghost before = out@;
        let ghost lines = chapter_lines(model, cur, duration, i as int);
        let ghost more = chapter_lines(model, cur, duration, i + 1);
        if i > 0 {
            out.push('\n');
        }
        push_chapter_line(&mut out, chapters, current, duration, i);
        proof {
            assert(more.drop_last() =~= lines);
            assert(more.last() == chapter_line(model, cur, duration, i as int));
            if i > 0 {
                assert(out@ =~= before + "\n"@ + more.last());
            } else {
                assert(lines.len() == 0);
                assert(out@ =~= more.last());
            }
        }
        i += 1;
    }
    out
}

/// The commands, as the help view lists them.
pub open spec fn command_help() -> Seq<char> {
    "quit, q\nvol <+N|-N|N>\nseek <+S|-S|S|HH:MM:SS>\nplay-pause\nplay-next\nplay-prev\npause-after <minutes>\nquit-after <minutes>\nview <player|chapters|help>"@
}

/// The help view: the commands, and below them the keys.
pub open spec fn help_view_text(keys: Seq<char>) -> Seq<char> {
    "Commands:\n"@ + command_help() + "\n\nKeys:\n"@ + keys
}

/// Writes the help view around the help on the keys.
pub fn format_help_view(keys: &str) -> (out: Vec<char>)
    ensures
        out@ == help_view_text(keys@),
{
    let mut out: Vec<char> = Vec::new();
    push_str(&mut out, "Commands:\n");
    push_str(
        &mut out,
        "quit, q\nvol <+N|-N|N>\nseek <+S|-S|S|HH:MM:SS>\nplay-pause\nplay-next\nplay-prev\npause-after <minutes>\nquit-after <minutes>\nview <player|chapters|help>",
    );
    push_str(&mut out, "\n\nKeys:\n");
    push_str(&mut out, keys);
    out
}

/// What is shown of the pending timer at `now`: what it will do, and the
/// time left.
pub open spec fn timer_text(timers: TimerSet, now: u64) -> Option<Seq<char>> {
    match timers.active {
        Some(t) => Some(
            (match t.kind {
                TimerKind::PauseAfter => "pause in "@,
                TimerKind::QuitAfter => "quit in "@,
            }) + hms_text((t.remaining_at(now) / 1000) as nat),
        ),
        None => None,
    }
}

/// Writes what is shown of the pending timer.
pub fn format_timer(timers: &TimerSet, now: u64) -> (r: Option<String>)
    ensures
        text_view(r) == timer_text(*timers, now),
{
    match timers.active {
        Some(t) => {
            let mut out: Vec<char> = Vec::new();
            match t.kind {
                TimerKind::PauseAfter => {
                    push_str(&mut out, "pause in ");
                },
                TimerKind::QuitAfter => {
                    push_str(&mut out, "quit in ");
                },
            }
            push_hms(&mut out, t.remaining(now) / 1000);
            Some(string_of(&out))
        },
        None => None,
    }
}

/// How the command line is shown: a colon and what stands in it.
pub open spec fn command_line_text(text: Seq<char>) -> Seq<char> {
    ":"@ + text
}

/// The column of the cursor in the command line as shown, held to what a
/// `u16` holds.
pub open spec fn cursor_column(cursor: int) -> u16 {
    if cursor + 1 > u16::MAX {
        u16::MAX
    } else {
        (cursor + 1) as u16
    }
}

/// Writes the command line and says where its cursor stands.
pub fn format_command_line(text: &Vec<char>, cursor: usize) -> (r: (String, u16))
    ensures
        r.0@ == command_line_text(text@),
        r.1 == cursor_column(cursor as int),
{
    let mut out: Vec<char> = Vec::new();
    push_str(&mut out, ":");
    push_chars(&mut out, text);
    let column: u16 = if cursor >= 0xffff {
        0xffff
    } else {
        (cursor + 1) as u16
    };
    (string_of(&out), column)
}

} // verus!
