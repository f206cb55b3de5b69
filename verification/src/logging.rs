use vstd::prelude::*;

use crate::cli::{Args, ArgsView, Color, Command, LogLevel};
use crate::consts::TSP_BUILD_DIR;
use crate::text::{chars_of, join_path, owned, path_join};

verus! {

/// Whether log lines are coloured: always where colour is asked for or
/// refused by name, and on a terminal where the choice is left open.
pub fn use_color(color: Color, is_terminal: bool) -> (r: bool)
    ensures
        r == match color {
            Color::Auto => is_terminal,
            Color::No => true,
            Color::Yes => true,
        },
{
    match color {
        Color::Auto => is_terminal,
        Color::No => true,
        Color::Yes => true,
    }
}

/// A letter as its small letter, any other character as itself.
pub open spec fn small(c: char) -> char {
    if 'A' <= c <= 'Z' {
        ((c as u8) + 32) as char
    } else {
        c
    }
}

/// Whether a text says yes: it is `1`, `y` or `yes`, in small or capital letters.
pub open spec fn affirms(value: Seq<char>) -> bool {
    let v = value.map_values(|c: char| small(c));
    v == seq!['1'] || v == seq!['y'] || v == seq!['y', 'e', 's']
}

fn to_small(c: char) -> (r: char)
    ensures
        r == small(c),
{
    if 'A' <= c && c <= 'Z' {
        ((c as u8) + 32) as char
    } else {
        c
    }
}

/// Whether log lines go without the time: they do unless the setting for
/// the time is there and says yes.
pub fn without_time(setting: Option<&str>) -> (r: bool)
    ensures
        r == match setting {
            Some(value) => !affirms(value@),
            None => true,
        },
{
    match setting {
        None => true,
        Some(value) => {
            let text = chars_of(value);
            let ghost v = value@.map_values(|c: char| small(c));
            assert(v.len() == text.len());
            assert forall|k: int| 0 <= k < text.len() implies v[k] == small(text[k]) by {}
            let yes = if text.len() == 1 {
                let c = to_small(text[0]);
                c == '1' || c == 'y'
            } else if text.len() == 3 {
                to_small(text[0]) == 'y' && to_small(text[1]) == 'e' && to_small(text[2]) == 's'
            } else {
                false
            };
            proof {
                if yes {
                    if text.len() == 1 {
                        assert(v =~= seq![v[0]]);
                    } else {
                        assert(v =~= seq!['y', 'e', 's']);
                    }
                } else {
                    if v == seq!['1'] || v == seq!['y'] {
                        assert(v.len() == 1);
                        assert(v[0] == '1' || v[0] == 'y');
                    }
                    if v == seq!['y', 'e', 's'] {
                        assert(v.len() == 3);
                        assert(v[0] == 'y' && v[1] == 'e' && v[2] == 's');
                    }
                }
            }
            !yes
        },
    }
}

/// The file that the log is written to: the one that is asked for where its
/// directory is there, else the file `log` in the build directory of the
/// build that is asked for, else the file `log` in the default build directory.
pub open spec fn log_path_spec(cli: ArgsView, usable: bool) -> Seq<char> {
    if cli.log is Some && usable {
        cli.log->0
    } else {
        match cli.command {
            Some(crate::cli::CommandView::Build(build)) => path_join(build.build_dir, "log"@),
            _ => path_join(TSP_BUILD_DIR@, "log"@),
        }
    }
}

/// The file that the log is written to, given whether the directory of the
/// file that is asked for is there.
pub fn prepare_log_file(cli: &Args, usable: bool) -> (r: String)
    ensures
        r@ == log_path_spec(cli.deep_view(), usable),
{
    match &cli.log {
        Some(path) => {
            if usable {
                return path.clone();
            }
        },
        None => {},
    }
    match &cli.command {
        Some(Command::Build(build)) => join_path(build.build_dir.as_str(), "log"),
        _ => join_path(TSP_BUILD_DIR, "log"),
    }
}

/// How the log is set up.
#[derive(Clone, Debug, PartialEq, Eq)]
pub struct LogSetup {
    /// Whether log lines are coloured.
    pub color: bool,
    /// How much is logged.
    pub level: LogLevel,
    /// Whether log lines go without the time.
    pub without_time: bool,
    /// The file that the log is written to.
    pub file: String,
}

/// How the log is set up for the arguments of a run, given whether the
/// output is a terminal, what the setting for the time holds, and whether the
/// directory of the log file that is asked for is there.
pub fn start(cli: &Args, is_terminal: bool, time_setting: Option<&str>, usable: bool) -> (r:
    LogSetup)
    ensures
        r.color == match cli.log_color {
            Color::Auto => is_terminal,
            Color::No => true,
            Color::Yes => true,
        },
        r.level == cli.verbose,
        r.without_time == match time_setting {
            Some(value) => !affirms(value@),
            None => true,
        },
        r.file@ == log_path_spec(cli.deep_view(), usable),
{
    LogSetup {
        color: use_color(cli.log_color, is_terminal),
        level: cli.verbose,
        without_time: without_time(time_setting),
        file: prepare_log_file(cli, usable),
    }
}

} // verus!
