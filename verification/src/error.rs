//! The error type of the library: an optional message, an exit code and a
//! kind.
use vstd::prelude::*;
use std::io::Write;
use crate::logger::{Level, MuxLogger};

verus! {

/// A kind of [`MuxError`].
#[derive(Clone, Copy, Debug, PartialEq, Eq, Structural)]
pub enum MuxErrorKind {
    InvalidValue,
    MatchesErrorDowncast,
    MatchesErrorUnknownArgument,
    Unknown,
}

impl MuxErrorKind {
    /// The default kind: [`MuxErrorKind::Unknown`].
    pub fn default_kind() -> (r: MuxErrorKind)
        ensures
            r == MuxErrorKind::Unknown,
    {
        MuxErrorKind::Unknown
    }
}

/// A message in English with an optional localized text.
#[derive(Debug)]
pub struct MuxErrorMessageLocalized {
    pub eng: String,
    pub localized: Option<String>,
}

/// The message of a [`MuxError`].
#[derive(Debug)]
pub enum MuxErrorMessage {
    Localized(MuxErrorMessageLocalized),
    String(String),
}

impl MuxErrorMessage {
    /// The English text of the message.
    pub open spec fn eng_view(&self) -> Seq<char> {
        match self {
            MuxErrorMessage::Localized(loc) => loc.eng@,
            MuxErrorMessage::String(s) => s@,
        }
    }

    /// The localized text of the message, falling back to English.
    pub open spec fn localized_view(&self) -> Seq<char> {
        match self {
            MuxErrorMessage::Localized(loc) => match &loc.localized {
                Some(l) => l@,
                None => loc.eng@,
            },
            MuxErrorMessage::String(s) => s@,
        }
    }

    /// The English text of the message.
    pub fn to_str(&self) -> (r: &str)
        ensures
            r@ == self.eng_view(),
    {
        match self {
            MuxErrorMessage::Localized(loc) => loc.eng.as_str(),
            MuxErrorMessage::String(s) => s.as_str(),
        }
    }

    /// The localized text of the message, falling back to English.
    pub fn to_str_localized(&self) -> (r: &str)
        ensures
            r@ == self.localized_view(),
    {
        match self {
            MuxErrorMessage::Localized(loc) => match &loc.localized {
                Some(l) => l.as_str(),
                None => loc.eng.as_str(),
            },
            MuxErrorMessage::String(s) => s.as_str(),
        }
    }

    /// A copy of the message.
    pub fn duplicate(&self) -> (r: MuxErrorMessage)
        ensures
            r == *self,
    {
        match self {
            MuxErrorMessage::Localized(loc) => MuxErrorMessage::Localized(
                MuxErrorMessageLocalized { eng: loc.eng.clone(), localized: loc.localized.clone() },
            ),
            MuxErrorMessage::String(s) => MuxErrorMessage::String(s.clone()),
        }
    }
}

/// An error with an optional message, a process exit code and a kind.
///
/// A code of `0` means a successful early exit (for example after printing
/// a list), so such an error is printed to stdout.
#[derive(Debug)]
pub struct MuxError {
    pub message: Option<MuxErrorMessage>,
    pub code: i32,
    pub kind: MuxErrorKind,
}

impl MuxError {
    /// The English text of the error, or the empty text without a message.
    pub open spec fn eng_view(&self) -> Seq<char> {
        match &self.message {
            Some(m) => m.eng_view(),
            None => Seq::empty(),
        }
    }

    /// The localized text of the error, or the empty text without a message.
    pub open spec fn localized_view(&self) -> Seq<char> {
        match &self.message {
            Some(m) => m.localized_view(),
            None => Seq::empty(),
        }
    }

    /// An error whose English message is `msg`.
    pub open spec fn has_message(&self, msg: Seq<char>) -> bool {
        &&& self.message matches Some(m)
        &&& m is String
        &&& m.eng_view() == msg
    }

    /// An error without message, with code `1` and kind `Unknown`.
    pub fn new() -> (r: MuxError)
        ensures
            r.message is None,
            r.code == 1,
            r.kind == MuxErrorKind::Unknown,
    {
        MuxError { message: None, code: 1, kind: MuxErrorKind::Unknown }
    }

    /// An error without message and with code `0`: a successful early exit.
    pub fn new_ok() -> (r: MuxError)
        ensures
            r.message is None,
            r.code == 0,
            r.kind == MuxErrorKind::Unknown,
    {
        MuxError::new().code(0)
    }

    /// An error whose message is the text of another error.
    pub fn from_any(err_text: String) -> (r: MuxError)
        ensures
            r.message == Some(MuxErrorMessage::String(err_text)),
            r.code == 1,
            r.kind == MuxErrorKind::Unknown,
    {
        MuxError::new().message(err_text)
    }

    /// An error with the given message.
    pub fn from_string(s: String) -> (r: MuxError)
        ensures
            r.message == Some(MuxErrorMessage::String(s)),
            r.code == 1,
            r.kind == MuxErrorKind::Unknown,
    {
        MuxError::new().message(s)
    }

    /// An error with the given message.
    pub fn from_str_msg(s: &str) -> (r: MuxError)
        ensures
            r.has_message(s@),
            r.code == 1,
            r.kind == MuxErrorKind::Unknown,
    {
        MuxError::new().message(s.to_owned())
    }

    /// An error with an English message and an optional localized text.
    pub fn localized(eng: String, localized: Option<String>) -> (r: MuxError)
        ensures
            r.message == Some(
                MuxErrorMessage::Localized(MuxErrorMessageLocalized { eng, localized }),
            ),
            r.code == 1,
            r.kind == MuxErrorKind::Unknown,
    {
        MuxError {
            message: Some(MuxErrorMessage::Localized(MuxErrorMessageLocalized { eng, localized })),
            code: 1,
            kind: MuxErrorKind::Unknown,
        }
    }

    /// Replaces the message.
    pub fn message(self, msg: String) -> (r: MuxError)
        ensures
            r.message == Some(MuxErrorMessage::String(msg)),
            r.code == self.code,
            r.kind == self.kind,
    {
        MuxError { message: Some(MuxErrorMessage::String(msg)), code: self.code, kind: self.kind }
    }

    /// Replaces the exit code.
    pub fn code(self, code: i32) -> (r: MuxError)
        ensures
            r.message == self.message,
            r.code == code,
            r.kind == self.kind,
    {
        MuxError { message: self.message, code, kind: self.kind }
    }

    /// Replaces the kind.
    pub fn kind(self, kind: MuxErrorKind) -> (r: MuxError)
        ensures
            r.message == self.message,
            r.code == self.code,
            r.kind == kind,
    {
        MuxError { message: self.message, code: self.code, kind }
    }

    /// The English text of the message, or `""` without a message.
    pub fn to_str(&self) -> (r: &str)
        ensures
            r@ == self.eng_view(),
    {
        match &self.message {
            Some(m) => m.to_str(),
            None => {
                proof {
                    reveal_strlit("");
                }
                ""
            },
        }
    }

    /// The localized text of the message, or `""` without a message.
    pub fn to_str_localized(&self) -> (r: &str)
        ensures
            r@ == self.localized_view(),
    {
        match &self.message {
            Some(m) => m.to_str_localized(),
            None => {
                proof {
                    reveal_strlit("");
                }
                ""
            },
        }
    }

    /// `true` unless the code is `0`: errors go to stderr, successful
    /// early exits to stdout.
    pub fn use_stderr(&self) -> (r: bool)
        ensures
            r == (self.code != 0),
    {
        self.code != 0
    }

    /// The text that [`MuxError::print`] (`localized == false`) or
    /// [`MuxError::print_localized`] (`localized == true`) writes, with
    /// `true` when it goes to stderr; nothing without a message.
    pub fn printed(&self, localized: bool) -> (r: Option<(bool, &str)>)
        ensures
            self.message is None ==> r is None,
            self.message is Some ==> (r matches Some(p) && p.0 == (self.code != 0) && p.1@ == if localized {
                self.localized_view()
            } else {
                self.eng_view()
            }),
    {
        match &self.message {
            Some(m) => Some(
                (
                    self.use_stderr(),
                    if localized {
                        m.to_str_localized()
                    } else {
                        m.to_str()
                    },
                ),
            ),
            None => None,
        }
    }

    /// Writes the English message: to stderr after an error prefix, or to
    /// stdout for a code of `0`. Nothing is written without a message.
    pub fn print(&self) {
        match self.printed(false) {
            Some((true, msg)) => write_stderr_line(MuxLogger::get_color_prefix(Level::Error), msg),
            Some((false, msg)) => write_stdout_line(msg),
            None => {},
        }
    }

    /// Writes the localized message as [`MuxError::print`] does.
    pub fn print_localized(&self) {
        match self.printed(true) {
            Some((true, msg)) => write_stderr_line(MuxLogger::get_color_prefix(Level::Error), msg),
            Some((false, msg)) => write_stdout_line(msg),
            None => {},
        }
    }

    /// A copy of the error.
    pub fn duplicate(&self) -> (r: MuxError)
        ensures
            r == *self,
    {
        let message = match &self.message {
            Some(m) => Some(m.duplicate()),
            None => None,
        };
        MuxError { message, code: self.code, kind: self.kind }
    }
}

/// Writes `prefix` and `msg` as one line to stderr (`writeln!` on
/// `std::io::stderr()`); a failed write is ignored.
#[verifier::external_body]
fn write_stderr_line(prefix: &str, msg: &str) {
    let _ = writeln!(std::io::stderr(), "{}{}", prefix, msg);
}

/// Writes `msg` as one line to stdout (`writeln!` on `std::io::stdout()`);
/// a failed write is ignored.
#[verifier::external_body]
fn write_stdout_line(msg: &str) {
    let _ = writeln!(std::io::stdout(), "{}", msg);
}

} // verus!
