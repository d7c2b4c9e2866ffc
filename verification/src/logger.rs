//! Logging levels, the verbosity setting and the prefixes of log lines.
use vstd::prelude::*;

verus! {

/// A maximum level of logged messages (the values of `log::LevelFilter`).
#[derive(Clone, Copy, Debug, PartialEq, Eq, Structural)]
pub enum LevelFilter {
    Off,
    Error,
    Warn,
    Info,
    Debug,
    Trace,
}

/// The level of one message (the values of `log::Level`).
#[derive(Clone, Copy, Debug, PartialEq, Eq, Structural)]
pub enum Level {
    Error,
    Warn,
    Info,
    Debug,
    Trace,
}

/// The verbosity setting: a maximum level of logged messages.
#[derive(Clone, Copy, Debug, PartialEq, Eq, Structural)]
pub struct LogLevel(pub LevelFilter);

impl LogLevel {
    /// The default verbosity: `Info`.
    pub fn default_level() -> (r: LogLevel)
        ensures
            r == LogLevel(LevelFilter::Info),
    {
        LogLevel(LevelFilter::Info)
    }

    /// `true` for the default verbosity.
    pub fn is_default(&self) -> (r: bool)
        ensures
            r == (self.0 == LevelFilter::Info),
    {
        match self.0 {
            LevelFilter::Info => true,
            _ => false,
        }
    }

    /// The verbosity of `-v` given `cnt` times.
    pub open spec fn spec_from_count(cnt: u8) -> LogLevel {
        if cnt == 0 {
            LogLevel(LevelFilter::Info)
        } else if cnt == 1 {
            LogLevel(LevelFilter::Debug)
        } else {
            LogLevel(LevelFilter::Trace)
        }
    }

    /// The verbosity of `-v` given `cnt` times: `Info` for none, `Debug`
    /// for one, `Trace` for more.
    pub fn from_count(cnt: u8) -> (r: LogLevel)
        ensures
            r == LogLevel::spec_from_count(cnt),
            cnt == 0 ==> r == LogLevel(LevelFilter::Info),
            cnt == 1 ==> r == LogLevel(LevelFilter::Debug),
            cnt >= 2 ==> r == LogLevel(LevelFilter::Trace),
    {
        match cnt {
            0 => LogLevel::default_level(),
            1 => LogLevel(LevelFilter::Debug),
            _ => LogLevel(LevelFilter::Trace),
        }
    }

    /// The command-line argument that gives this verbosity back, if it is
    /// not implied.
    pub open spec fn spec_json_arg(self) -> Option<Seq<char>> {
        match self.0 {
            LevelFilter::Off | LevelFilter::Error => Some("--quiet"@),
            LevelFilter::Warn | LevelFilter::Info => None,
            LevelFilter::Debug => Some("-v"@),
            LevelFilter::Trace => Some("-vv"@),
        }
    }

    /// Appends the argument that gives this verbosity back: `--quiet` for
    /// `Off` and `Error`, `-v` for `Debug`, `-vv` for `Trace`.
    pub fn append_json_args(&self, args: &mut Vec<String>)
        ensures
            self.spec_json_arg() matches Some(a) ==> final(args)@.len() == old(args)@.len() + 1
                && final(args)@.take(old(args)@.len() as int) == old(args)@ && final(args)@.last()@
                == a,
            self.spec_json_arg() is None ==> final(args)@ == old(args)@,
    {
        match self.0 {
            LevelFilter::Off | LevelFilter::Error => {
                args.push(String::from_str("--quiet"));
            },
            LevelFilter::Warn | LevelFilter::Info => {},
            LevelFilter::Debug => {
                args.push(String::from_str("-v"));
            },
            LevelFilter::Trace => {
                args.push(String::from_str("-vv"));
            },
        }
        assert(final(args)@.take(old(args)@.len() as int) =~= old(args)@);
    }
}

/// The prefix of a log line of `level`, colored when the stream it goes to
/// supports color: `Error` and `Warn` go to stderr, `Debug` and `Trace` to
/// stdout, and `Info` has no prefix.
pub open spec fn spec_color_prefix(level: Level, on_color: bool) -> Seq<char> {
    match level {
        Level::Error => if on_color {
            "\x1b[31mError\x1b[0m: "@
        } else {
            "Error: "@
        },
        Level::Warn => if on_color {
            "\x1b[33mWarning\x1b[0m: "@
        } else {
            "Warning: "@
        },
        Level::Debug => if on_color {
            "\x1b[34mDebug\x1b[0m: "@
        } else {
            "Debug: "@
        },
        Level::Trace => if on_color {
            "\x1b[35mTrace\x1b[0m: "@
        } else {
            "Trace: "@
        },
        Level::Info => ""@,
    }
}

/// `true` for the levels whose lines go to stderr.
pub open spec fn goes_to_stderr(level: Level) -> bool {
    level == Level::Error || level == Level::Warn
}

/// The prefix of a log line of `level`, given whether its stream supports
/// color.
pub fn color_prefix(level: Level, on_color: bool) -> (r: &'static str)
    ensures
        r@ == spec_color_prefix(level, on_color),
{
    match level {
        Level::Error => if on_color {
            "\x1b[31mError\x1b[0m: "
        } else {
            "Error: "
        },
        Level::Warn => if on_color {
            "\x1b[33mWarning\x1b[0m: "
        } else {
            "Warning: "
        },
        Level::Debug => if on_color {
            "\x1b[34mDebug\x1b[0m: "
        } else {
            "Debug: "
        },
        Level::Trace => if on_color {
            "\x1b[35mTrace\x1b[0m: "
        } else {
            "Trace: "
        },
        Level::Info => "",
    }
}

/// Whether a standard stream supports color (`supports_color::on`): stderr
/// when `stderr`, stdout otherwise. It depends on the terminal and the
/// environment; nothing is stated of it.
#[verifier::external_body]
fn supports_color_on(stderr: bool) -> bool {
    let stream = if stderr {
        supports_color::Stream::Stderr
    } else {
        supports_color::Stream::Stdout
    };
    supports_color::on(stream).is_some()
}

/// The logger of the crate.
#[derive(Debug)]
pub struct MuxLogger;

impl MuxLogger {
    /// The prefix of a log line of `level`, colored when the stream it goes
    /// to ([`MuxLogger::log_to_stderr`]) supports color; `Info` lines have
    /// no prefix.
    pub fn get_color_prefix(level: Level) -> (r: &'static str)
        ensures
            r@ == spec_color_prefix(level, true) || r@ == spec_color_prefix(level, false),
            level == Level::Info ==> r@ == ""@,
    {
        let stderr_on = supports_color_on(true);
        let stdout_on = supports_color_on(false);
        MuxLogger::color_prefix_for(level, stderr_on, stdout_on)
    }

    /// The prefix of a log line of `level`, given whether stderr and stdout
    /// support color: colored when the stream the line goes to does.
    pub fn color_prefix_for(level: Level, stderr_on: bool, stdout_on: bool) -> (r: &'static str)
        ensures
            r@ == spec_color_prefix(
                level,
                if goes_to_stderr(level) {
                    stderr_on
                } else {
                    stdout_on
                },
            ),
    {
        let on_color = if MuxLogger::log_to_stderr(level) {
            stderr_on
        } else {
            stdout_on
        };
        color_prefix(level, on_color)
    }

    /// The stream a line of `level` goes to: stderr for errors and warnings,
    /// stdout for the rest.
    pub fn log_to_stderr(level: Level) -> (r: bool)
        ensures
            r == goes_to_stderr(level),
    {
        match level {
            Level::Error | Level::Warn => true,
            _ => false,
        }
    }

    /// `true` when a message of `level` is logged: every level is.
    pub fn enabled(level: Level) -> (r: bool)
        ensures
            r,
    {
        true
    }
}

/// Law: a verbosity given by `-v` flags is saved as the argument `-` and
/// as many `v` as count (at most two), which gives the same verbosity back;
/// the default verbosity is not saved.
pub proof fn lemma_verbosity_saved_back(cnt: u8)
    ensures
        cnt == 0 ==> LogLevel::spec_from_count(cnt).spec_json_arg() is None,
        cnt > 0 ==> (LogLevel::spec_from_count(cnt).spec_json_arg() matches Some(a) && a.len() >= 2
            && a[0] == '-' && (forall|k: int| 1 <= k < a.len() ==> a[k] == 'v')
            && LogLevel::spec_from_count((a.len() - 1) as u8) == LogLevel::spec_from_count(cnt)),
{
    reveal_strlit("-v");
    reveal_strlit("-vv");
}

} // verus!
