//! Structured errors of the virtual machine and the kinds its status codes name.

use vstd::prelude::*;
use libc::c_int;
use vstd::string::*;
use vstd::utf8::{decode_utf8, valid_utf8};
use crate::abi::{LUA_ERRERR, LUA_ERRGCMM, LUA_ERRMEM, LUA_ERRRUN, LUA_ERRSYNTAX, LUA_OK};

verus! {

/// What went wrong, as the virtual machine's status code tells it.
#[derive(Debug, Clone, Copy, PartialEq, Eq, Structural)]
pub enum ErrorKind {
    /// An error raised while a script ran.
    Runtime,
    /// A chunk that did not compile.
    Syntax,
    /// The allocator gave no memory.
    OutOfMemory,
    /// The handler of a protected call failed itself.
    MessageHandler,
    /// A finalizer raised during collection.
    GarbageCollection,
    /// A file could not be read, or a status this crate has no name for.
    Io,
}

/// An error of the virtual machine: its kind and, where the machine left a
/// value on top of the stack, that value as text.
#[derive(Debug)]
pub struct Error {
    pub kind: ErrorKind,
    pub msg: Option<String>,
}

pub type LuaResult<T> = Result<T, Error>;

/// Why running a thread failed.
#[derive(Debug)]
pub enum ThreadError {
    /// Host code unwound while the thread ran; the payload's text, where it
    /// was text.
    Panic(Option<String>),
    /// The virtual machine reported an error.
    Lua(Error),
}

/// The text that a lossy decoding of `bytes` as UTF-8 yields.
pub uninterp spec fn lossy_utf8(bytes: Seq<u8>) -> Seq<char>;

/// Decodes with `String::from_utf8_lossy`. The result is a function of the
/// bytes alone; of well-formed UTF-8 it is the text the bytes encode, as the
/// standard library documents. What it puts in place of malformed bytes is
/// not stated here.
#[verifier::external_body]
fn decode_lossy(bytes: &[u8]) -> (s: String)
    ensures
        s@ == lossy_utf8(bytes@),
        valid_utf8(bytes@) ==> s@ == decode_utf8(bytes@),
{
    String::from_utf8_lossy(bytes).into_owned()
}

/// The text of an optional string.
pub open spec fn text_of(s: Option<String>) -> Option<Seq<char>> {
    match s {
        Some(s) => Some(s@),
        None => None,
    }
}

/// The text a message of these bytes is shown as.
pub open spec fn message_of(bytes: Option<Vec<u8>>) -> Option<Seq<char>> {
    match bytes {
        Some(b) => Some(lossy_utf8(b@)),
        None => None,
    }
}

/// Turns the bytes of a message into text, malformed UTF-8 replaced.
pub fn message_text(bytes: Option<Vec<u8>>) -> (msg: Option<String>)
    ensures
        text_of(msg) == message_of(bytes),
        match bytes {
            Some(b) => valid_utf8(b@) ==> text_of(msg) == Some(decode_utf8(b@)),
            None => true,
        },
{
    match bytes {
        Some(b) => Some(decode_lossy(b.as_slice())),
        None => None,
    }
}

impl ErrorKind {
    /// The kind a status code stands for; none for the status of success.
    /// A status without a kind of its own counts as an input/output error.
    pub open spec fn of_status(code: int) -> Option<ErrorKind> {
        if code == LUA_OK {
            None
        } else if code == LUA_ERRRUN {
            Some(ErrorKind::Runtime)
        } else if code == LUA_ERRSYNTAX {
            Some(ErrorKind::Syntax)
        } else if code == LUA_ERRMEM {
            Some(ErrorKind::OutOfMemory)
        } else if code == LUA_ERRERR {
            Some(ErrorKind::MessageHandler)
        } else if code == LUA_ERRGCMM {
            Some(ErrorKind::GarbageCollection)
        } else {
            Some(ErrorKind::Io)
        }
    }

    /// The kind a status code stands for; none for the status of success.
    pub fn from_status(code: c_int) -> (kind: Option<ErrorKind>)
        ensures
            kind == Self::of_status(code as int),
    {
        if code == LUA_OK {
            None
        } else if code == LUA_ERRRUN {
            Some(ErrorKind::Runtime)
        } else if code == LUA_ERRSYNTAX {
            Some(ErrorKind::Syntax)
        } else if code == LUA_ERRMEM {
            Some(ErrorKind::OutOfMemory)
        } else if code == LUA_ERRERR {
            Some(ErrorKind::MessageHandler)
        } else if code == LUA_ERRGCMM {
            Some(ErrorKind::GarbageCollection)
        } else {
            Some(ErrorKind::Io)
        }
    }

    pub open spec fn description_spec(self) -> Seq<char> {
        match self {
            ErrorKind::Runtime => "runtime error"@,
            ErrorKind::Syntax => "syntax error"@,
            ErrorKind::OutOfMemory => "out of memory"@,
            ErrorKind::MessageHandler => "error in the message handler"@,
            ErrorKind::GarbageCollection => "error in a finalizer"@,
            ErrorKind::Io => "input/output error"@,
        }
    }

    /// A short name of the kind.
    pub fn description(self) -> (s: &'static str)
        ensures
            s@ == self.description_spec(),
    {
        match self {
            ErrorKind::Runtime => "runtime error",
            ErrorKind::Syntax => "syntax error",
            ErrorKind::OutOfMemory => "out of memory",
            ErrorKind::MessageHandler => "error in the message handler",
            ErrorKind::GarbageCollection => "error in a finalizer",
            ErrorKind::Io => "input/output error",
        }
    }
}

impl Error {
    pub fn new(kind: ErrorKind, msg: Option<String>) -> (e: Error)
        ensures
            e.kind == kind,
            e.msg == msg,
    {
        Error { kind, msg }
    }

    /// The message as text.
    pub open spec fn text(self) -> Option<Seq<char>> {
        text_of(self.msg)
    }

    pub open spec fn to_text_spec(self) -> Seq<char> {
        match self.msg {
            Some(m) => self.kind.description_spec() + ": "@ + m@,
            None => self.kind.description_spec(),
        }
    }

    /// The error in one line: the kind, then the message where there is one.
    pub fn to_text(&self) -> (s: String)
        ensures
            s@ == self.to_text_spec(),
    {
        let mut s = String::from_str(self.kind.description());
        match &self.msg {
            Some(m) => {
                s.append(": ");
                s.append(m.as_str());
            },
            None => {},
        }
        s
    }
}

impl ThreadError {
    pub open spec fn description_spec(self) -> Seq<char> {
        match self {
            ThreadError::Panic(_) => "panicked while running thread"@,
            ThreadError::Lua(_) => "lua error"@,
        }
    }

    pub fn description(&self) -> (s: &'static str)
        ensures
            s@ == self.description_spec(),
    {
        match self {
            ThreadError::Panic(_) => "panicked while running thread",
            ThreadError::Lua(_) => "lua error",
        }
    }

    pub open spec fn to_text_spec(self) -> Seq<char> {
        self.description_spec() + ": "@ + match self {
            ThreadError::Panic(_) => "Any { .. }"@,
            ThreadError::Lua(e) => e.to_text_spec(),
        }
    }

    /// The error in one line: what failed, then the machine's error or, for
    /// a panic, a placeholder, since a payload need not be text.
    pub fn to_text(&self) -> (s: String)
        ensures
            s@ == self.to_text_spec(),
    {
        let mut s = String::from_str(self.description());
        s.append(": ");
        match self {
            ThreadError::Panic(_) => s.append("Any { .. }"),
            ThreadError::Lua(e) => {
                let t = e.to_text();
                s.append(t.as_str());
            },
        }
        s
    }
}

impl From<Error> for ThreadError {
    fn from(error: Error) -> (e: ThreadError) {
        ThreadError::Lua(error)
    }
}

impl vstd::std_specs::convert::FromSpecImpl<Error> for ThreadError {
    open spec fn obeys_from_spec() -> bool {
        true
    }

    open spec fn from_spec(error: Error) -> ThreadError {
        ThreadError::Lua(error)
    }
}

} // verus!
