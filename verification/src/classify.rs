//! Classification of a native status code into a structured error.
//!
//! A status of success is no error. Any other status names the kind, and the
//! value on top of the stack, where the stack holds one, gives the message:
//! the machine converts it to text, which pushes the text, and the text is
//! popped again, so that the stack ends as deep as it began.

use vstd::prelude::*;
use libc::c_int;
use crate::abi::LUA_OK;
use crate::error::{message_of, message_text, Error, ErrorKind, LuaResult};
use crate::native::{lua_pop, Op, Reply};

verus! {

/// One classification, from the status code to the structured error.
#[derive(Debug)]
pub enum Classify {
    /// The status was that of success.
    Passed,
    /// The depth of the stack is wanted: whether a value stands on top.
    Inspect { kind: ErrorKind },
    /// The text of the top slot is wanted.
    Stringify { kind: ErrorKind },
    /// The text the conversion pushed is to be popped.
    Restore { kind: ErrorKind, text: Option<Vec<u8>> },
    /// The error is known.
    Failed { kind: ErrorKind, text: Option<Vec<u8>> },
}

impl Classify {
    pub open spec fn start_spec(code: c_int) -> Classify {
        match ErrorKind::of_status(code as int) {
            None => Classify::Passed,
            Some(kind) => Classify::Inspect { kind },
        }
    }

    /// Begins the classification of `code`.
    pub fn start(code: c_int) -> (c: Classify)
        ensures
            c == Self::start_spec(code),
    {
        match ErrorKind::from_status(code) {
            None => Classify::Passed,
            Some(kind) => Classify::Inspect { kind },
        }
    }

    pub open spec fn pending_spec(self) -> Option<Op> {
        match self {
            Classify::Inspect { .. } => Some(Op::GetTop),
            Classify::Stringify { .. } => Some(Op::ToLString { index: -1 as c_int }),
            Classify::Restore { .. } => Some(Op::SetTop { index: -2 as c_int }),
            Classify::Passed | Classify::Failed { .. } => None,
        }
    }

    /// The native call to make next; none once the outcome is known.
    pub fn pending(&self) -> (op: Option<Op>)
        ensures
            op == self.pending_spec(),
    {
        match self {
            Classify::Inspect { .. } => Some(Op::GetTop),
            Classify::Stringify { .. } => Some(Op::ToLString { index: -1 as c_int }),
            Classify::Restore { .. } => Some(lua_pop(1)),
            Classify::Passed | Classify::Failed { .. } => None,
        }
    }

    pub open spec fn resume_spec(self, reply: Reply) -> Classify {
        match (self, reply) {
            (Classify::Inspect { kind }, Reply::Depth(top)) => if top < 1 {
                Classify::Failed { kind, text: None }
            } else {
                Classify::Stringify { kind }
            },
            (Classify::Stringify { kind }, Reply::Text(text)) => Classify::Restore { kind, text },
            (Classify::Restore { kind, text }, Reply::Unit) => Classify::Failed { kind, text },
            _ => self,
        }
    }

    /// Takes the answer to the pending call. An answer of another kind than
    /// the pending call gives changes nothing.
    pub fn resume(self, reply: Reply) -> (next: Classify)
        ensures
            next == self.resume_spec(reply),
    {
        match (self, reply) {
            (Classify::Inspect { kind }, Reply::Depth(top)) => if top < 1 {
                Classify::Failed { kind, text: None }
            } else {
                Classify::Stringify { kind }
            },
            (Classify::Stringify { kind }, Reply::Text(text)) => Classify::Restore { kind, text },
            (Classify::Restore { kind, text }, Reply::Unit) => Classify::Failed { kind, text },
            (state, _) => state,
        }
    }

    /// The kind and message found, once the classification is over:
    /// `Some(None)` for success.
    pub open spec fn outcome_spec(self) -> Option<Option<(ErrorKind, Option<Seq<char>>)>> {
        match self {
            Classify::Passed => Some(None),
            Classify::Failed { kind, text } => Some(Some((kind, message_of(text)))),
            _ => None,
        }
    }

    /// The result of the classification; none while a call is pending.
    pub fn outcome(self) -> (r: Option<LuaResult<()>>)
        ensures
            match self.outcome_spec() {
                None => r is None,
                Some(None) => r == Some(Ok::<(), Error>(())),
                Some(Some((kind, msg))) => r matches Some(Err(e)) && e.kind == kind && e.text()
                    == msg,
            },
    {
        match self {
            Classify::Passed => Some(Ok(())),
            Classify::Failed { kind, text } => Some(Err(Error::new(kind, message_text(text)))),
            _ => None,
        }
    }
}

/// What classification comes to, given the status, the depth of the stack
/// and the text the machine makes of the top slot.
pub open spec fn classified(code: c_int, top: c_int, text: Option<Vec<u8>>) -> Classify {
    match ErrorKind::of_status(code as int) {
        None => Classify::Passed,
        Some(kind) => Classify::Failed {
            kind,
            text: if top < 1 {
                None
            } else {
                text
            },
        },
    }
}

/// The look at the depth of the stack.
pub open spec fn look() -> Op {
    Op::GetTop
}

/// The conversion of the top slot to text.
pub open spec fn stringify() -> Op {
    Op::ToLString { index: -1 as c_int }
}

/// The pop of one value.
pub open spec fn pop_one() -> Op {
    Op::SetTop { index: -2 as c_int }
}

/// A status of success is classified at once, with no native call; any other
/// status begins with a look at the top of the stack.
pub proof fn lemma_success_needs_no_call(code: c_int)
    ensures
        code == LUA_OK ==> Classify::start_spec(code) == Classify::Passed,
        code != LUA_OK ==> Classify::start_spec(code).pending_spec() == Some(look()),
{
}

/// With nothing on the stack a failure is classified after one look at the
/// depth, which leaves the stack alone, and has no message.
pub proof fn lemma_classify_empty(code: c_int, after: int)
    requires
        code != LUA_OK,
        look().effect(Reply::Depth(0), 0, after),
    ensures
        Classify::start_spec(code).resume_spec(Reply::Depth(0)) == classified(code, 0, None),
        look().allowed(0),
        after == 0,
{
}

/// With a value on top a failure is classified in three calls: the look at
/// the depth, the conversion of the top slot to text and the pop of that
/// text. Each call is one the stack allows, the message is the text, and
/// the stack ends as deep as it began.
pub proof fn lemma_classify_stack_neutral(
    code: c_int,
    top: c_int,
    text: Option<Vec<u8>>,
    d1: int,
    d2: int,
    d3: int,
)
    requires
        code != LUA_OK,
        top >= 1,
        look().effect(Reply::Depth(top), top as int, d1),
        stringify().effect(Reply::Text(text), d1, d2),
        pop_one().effect(Reply::Unit, d2, d3),
    ensures
        ({
            let c0 = Classify::start_spec(code);
            let c1 = c0.resume_spec(Reply::Depth(top));
            let c2 = c1.resume_spec(Reply::Text(text));
            let c3 = c2.resume_spec(Reply::Unit);
            &&& c0.pending_spec() == Some(look())
            &&& c1.pending_spec() == Some(stringify())
            &&& c2.pending_spec() == Some(pop_one())
            &&& c3 == classified(code, top, text)
        }),
        look().allowed(top as int),
        stringify().allowed(d1),
        pop_one().allowed(d2),
        d3 == top,
{
}

} // verus!
