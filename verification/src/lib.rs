//! Control logic of a terminal audiobook player: the command language,
//! the playback position estimator, deadline timers, and the decisions of
//! the engine, terminal and media-session loops.

pub mod libmpv_handler;
pub mod logger;
pub mod loops;
pub mod mc_os_interface;
pub mod number;
pub mod position;
pub mod sorting;
pub mod text;
pub mod timer;
pub mod tui;

use crate::number::{parse_i64, signed_of};
use crate::text::{chars_of, is_prefix, push_str, starts_with, string_of, word_is};
use vstd::prelude::*;

verus! {

/// What went wrong with the arguments of the program.
#[derive(Debug, Clone, PartialEq, Eq)]
pub enum UAPlayerError {
    /// An argument that is no option of the program.
    InvalidOption(String),
    /// No file was named, and none is remembered.
    InvalidOptionsStructure,
    /// The file is not there, or is no audio file.
    InvalidFile,
}

/// What the arguments of the program ask for.
#[derive(Debug, Clone, PartialEq, Eq)]
pub enum ProgramOption {
    /// The file to play.
    PATH(String),
    PrintHelp,
    /// The volume to begin with, from 0 to 100.
    Volume(i64),
    Verbose,
}

/// What the arguments say about the file to play.
#[derive(Debug, Clone, PartialEq, Eq)]
pub enum Selection {
    /// Show the help and do nothing else.
    PrintHelp,
    /// Play the file at `path`; `options` are the arguments that are left.
    Play { path: String, options: Vec<String> },
}

/// An error of the arguments as plain values.
pub enum ErrorModel {
    InvalidOption(Seq<char>),
    InvalidOptionsStructure,
    InvalidFile,
}

/// An option of the program as plain values.
pub enum OptionModel {
    Path(Seq<char>),
    PrintHelp,
    Volume(i64),
    Verbose,
}

/// What the arguments say about the file to play, as plain values.
pub enum SelectionModel {
    PrintHelp,
    Play { path: Seq<char>, options: Seq<Seq<char>> },
}

impl View for UAPlayerError {
    type V = ErrorModel;

    open spec fn view(&self) -> ErrorModel {
        match self {
            UAPlayerError::InvalidOption(s) => ErrorModel::InvalidOption(s@),
            UAPlayerError::InvalidOptionsStructure => ErrorModel::InvalidOptionsStructure,
            UAPlayerError::InvalidFile => ErrorModel::InvalidFile,
        }
    }
}

impl View for ProgramOption {
    type V = OptionModel;

    open spec fn view(&self) -> OptionModel {
        match self {
            ProgramOption::PATH(s) => OptionModel::Path(s@),
            ProgramOption::PrintHelp => OptionModel::PrintHelp,
            ProgramOption::Volume(v) => OptionModel::Volume(*v),
            ProgramOption::Verbose => OptionModel::Verbose,
        }
    }
}

/// The character sequences that the texts of `v` hold.
pub open spec fn string_views(v: Seq<String>) -> Seq<Seq<char>> {
    Seq::new(v.len(), |i: int| v[i]@)
}

/// The options of `v` as plain values.
pub open spec fn option_views(v: Seq<ProgramOption>) -> Seq<OptionModel> {
    Seq::new(v.len(), |i: int| v[i]@)
}

impl View for Selection {
    type V = SelectionModel;

    open spec fn view(&self) -> SelectionModel {
        match self {
            Selection::PrintHelp => SelectionModel::PrintHelp,
            Selection::Play { path, options } => SelectionModel::Play {
                path: path@,
                options: string_views(options@),
            },
        }
    }
}

/// What the arguments `args` say about the file to play, where `saved` is
/// the file that is remembered from the last run. The last argument names
/// the file; where there is no argument the remembered file stands in for
/// it. A last argument `--help` asks for the help. Where the last argument
/// is an option, it stays one, and the remembered file is played.
pub open spec fn selection_of(args: Seq<Seq<char>>, saved: Option<Seq<char>>) -> Result<
    SelectionModel,
    ErrorModel,
> {
    let last = if args.len() > 0 {
        Some(args.last())
    } else {
        saved
    };
    let rest = if args.len() > 0 {
        args.drop_last()
    } else {
        args
    };
    match last {
        None => Err(ErrorModel::InvalidOptionsStructure),
        Some(l) => if l == "--help"@ {
            Ok(SelectionModel::PrintHelp)
        } else if is_prefix("--"@, l) {
            match saved {
                Some(p) => Ok(SelectionModel::Play { path: p, options: rest.push(l) }),
                None => Err(ErrorModel::InvalidOptionsStructure),
            }
        } else {
            Ok(SelectionModel::Play { path: l, options: rest })
        },
    }
}

/// The result `r` as plain values.
pub open spec fn selection_view(r: Result<Selection, UAPlayerError>) -> Result<
    SelectionModel,
    ErrorModel,
> {
    match r {
        Ok(s) => Ok(s@),
        Err(e) => Err(e@),
    }
}

/// Says which file the arguments `args` name, and which of them are left
/// as options. `saved_path` is the file that is remembered from the last
/// run.
pub fn choose_path(args: Vec<String>, saved_path: Option<String>) -> (r: Result<
    Selection,
    UAPlayerError,
>)
    ensures
        selection_view(r) == selection_of(string_views(args@), crate::libmpv_handler::text_view(saved_path)),
{
    let mut args = args;
    let ghost all = string_views(args@);
    let had_args = args.len() > 0;
    let last = match args.pop() {
        Some(l) => l,
        None => match &saved_path {
            Some(p) => p.clone(),
            None => {
                return Err(UAPlayerError::InvalidOptionsStructure);
            },
        },
    };
    proof {
        if had_args {
            assert(string_views(args@) =~= all.drop_last());
        } else {
            assert(string_views(args@) =~= all);
        }
    }
    let l = chars_of(last.as_str());
    if word_is(&l, "--help") {
        return Ok(Selection::PrintHelp);
    }
    let dashes = chars_of("--");
    if starts_with(&l, &dashes) {
        match saved_path {
            Some(p) => {
                let ghost rest = string_views(args@);
                args.push(last);
                proof {
                    assert(string_views(args@) =~= rest.push(l@));
                }
                Ok(Selection::Play { path: p, options: args })
            },
            None => Err(UAPlayerError::InvalidOptionsStructure),
        }
    } else {
        Ok(Selection::Play { path: last, options: args })
    }
}

/// Whether a file with the extension `extension` is an audio file: the
/// extension is `m4b` or `mp3`, in small letters.
pub open spec fn is_audio_extension(extension: Option<Seq<char>>) -> bool {
    extension matches Some(e) && (e == "m4b"@ || e == "mp3"@)
}

/// Whether a file is an audio file, going by `extension`, the extension
/// of its path, if it has one.
pub fn is_audiofile(extension: Option<&str>) -> (r: bool)
    ensures
        r == (extension matches Some(e) && (e@ == "m4b"@ || e@ == "mp3"@)),
{
    if let Some(ext) = extension {
        let e = chars_of(ext);
        if word_is(&e, "m4b") {
            return true;
        } else if word_is(&e, "mp3") {
            return true;
        }
    }
    false
}

/// The volume that the argument `arg` sets: `--volume=` and a whole number
/// from 0 to 100.
pub open spec fn volume_option(arg: Seq<char>) -> Option<i64> {
    if is_prefix("--volume="@, arg) {
        match signed_of(arg.skip(9)) {
            Some(v) => if 0 <= v <= 100 {
                Some(v)
            } else {
                None
            },
            None => None,
        }
    } else {
        None
    }
}

/// The option that the argument `arg` stands for, if any.
pub open spec fn option_of(arg: Seq<char>) -> Option<OptionModel> {
    if arg == "--help"@ {
        Some(OptionModel::PrintHelp)
    } else if arg == "--verbose"@ {
        Some(OptionModel::Verbose)
    } else {
        match volume_option(arg) {
            Some(v) => Some(OptionModel::Volume(v)),
            None => None,
        }
    }
}

/// The place of the first of `args` at or after `i` that stands for no
/// option, or the length of `args` where each stands for one.
pub open spec fn first_invalid(args: Seq<Seq<char>>, i: int) -> int
    decreases args.len() - i,
{
    if 0 <= i < args.len() && option_of(args[i]) is Some {
        first_invalid(args, i + 1)
    } else {
        i
    }
}

/// What the program is asked to do with the file at `path`, whose path
/// has the extension `extension` and which is there or not, and the
/// arguments `args`. A file that is not there or is no audio file is an
/// error, and so is the first argument that stands for no option. Else
/// the file comes first, and then what each argument stands for.
pub open spec fn options_of(
    path: Seq<char>,
    extension: Option<Seq<char>>,
    present: bool,
    args: Seq<Seq<char>>,
) -> Result<Seq<OptionModel>, ErrorModel> {
    if !present || !is_audio_extension(extension) {
        Err(ErrorModel::InvalidFile)
    } else {
        let bad = first_invalid(args, 0);
        if 0 <= bad < args.len() {
            Err(ErrorModel::InvalidOption(args[bad]))
        } else {
            Ok(
                Seq::new(
                    args.len() + 1,
                    |i: int|
                        if i == 0 {
                            OptionModel::Path(path)
                        } else {
                            option_of(args[i - 1])->0
                        },
                ),
            )
        }
    }
}

/// The result `r` as plain values.
pub open spec fn options_view(r: Result<Vec<ProgramOption>, UAPlayerError>) -> Result<
    Seq<OptionModel>,
    ErrorModel,
> {
    match r {
        Ok(v) => Ok(option_views(v@)),
        Err(e) => Err(e@),
    }
}

fn parse_option(arg: &str) -> (r: Option<ProgramOption>)
    ensures
        match r {
            Some(o) => option_of(arg@) == Some(o@),
            None => option_of(arg@) is None,
        },
        r matches Some(o) ==> !(o is PATH),
{
    let a = chars_of(arg);
    if word_is(&a, "--help") {
        return Some(ProgramOption::PrintHelp);
    }
    if word_is(&a, "--verbose") {
        return Some(ProgramOption::Verbose);
    }
    let prefix = chars_of("--volume=");
    proof {
        reveal_strlit("--volume=");
    }
    if !starts_with(&a, &prefix) {
        return None;
    }
    let value = crate::number::slice_chars(&a, 9, a.len());
    assert(value@ == arg@.skip(9));
    match parse_i64(&value) {
        Some(v) => {
            if 0 <= v && v <= 100 {
                Some(ProgramOption::Volume(v))
            } else {
                None
            }
        },
        None => None,
    }
}

/// Reads the arguments that are left once the file is known.
/// `extension` is the extension of `path`, if it has one, and `present`
/// says whether the file at `path` is there.
pub fn process_args(
    path: String,
    extension: Option<String>,
    present: bool,
    options: Vec<String>,
) -> (r: Result<Vec<ProgramOption>, UAPlayerError>)
    ensures
        options_view(r) == options_of(
            path@,
            crate::libmpv_handler::text_view(extension),
            present,
            string_views(options@),
        ),
{
    let audio = match &extension {
        Some(e) => is_audiofile(Some(e.as_str())),
        None => is_audiofile(None),
    };
    if !present || !audio {
        return Err(UAPlayerError::InvalidFile);
    }
    let ghost ext = crate::libmpv_handler::text_view(extension);
    let ghost args = string_views(options@);
    let ghost p = path@;
    let mut out: Vec<ProgramOption> = Vec::new();
    out.push(ProgramOption::PATH(path));
    let mut i: usize = 0;
    while i < options.len()
        invariant
            i <= options.len(),
            present,
            is_audio_extension(ext),
            ext == crate::libmpv_handler::text_view(extension),
            p == path@,
            args == string_views(options@),
            first_invalid(args, 0) == first_invalid(args, i as int),
            out.len() == i + 1,
            out[0]@ == OptionModel::Path(p),
            forall|k: int| 1 <= k <= i ==> option_of(args[k - 1]) == Some((#[trigger] out[k])@),
        decreases options.len() - i,
    {
        assert(args[i as int] == options@[i as int]@);
        match parse_option(options[i].as_str()) {
            Some(o) => {
                out.push(o);
            },
            None => {
                assert(first_invalid(args, i as int) == i);
                return Err(UAPlayerError::InvalidOption(options[i].clone()));
            },
        }
        i += 1;
    }
    proof {
        assert(option_views(out@) =~= options_of(p, ext, true, args)->Ok_0);
    }
    Ok(out)
}

/// How the program is called, with `program` as its name.
pub open spec fn usage_text(program: Seq<char>) -> Seq<char> {
    "Usage: "@ + program + " [OPTIONS] [PATH]\n       "@ + program
        + " --help\nOptions:\n\t --volume=<value>\t(0..100)\n\t --verbose\n\t --help\n"@
}

/// Writes how the program is called.
pub fn usage(program: &str) -> (r: String)
    ensures
        r@ == usage_text(program@),
{
    let mut out: Vec<char> = Vec::new();
    push_str(&mut out, "Usage: ");
    push_str(&mut out, program);
    push_str(&mut out, " [OPTIONS] [PATH]\n       ");
    push_str(&mut out, program);
    push_str(&mut out, " --help\nOptions:\n\t --volume=<value>\t(0..100)\n\t --verbose\n\t --help\n");
    string_of(&out)
}

} // verus!
