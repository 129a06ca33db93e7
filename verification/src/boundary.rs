//! What the two callbacks decide that the virtual machine makes into host
//! code: the allocator and the fatal-error hook.
//!
//! Neither may unwind into the machine. The allocator signals failure by a
//! null pointer alone; the hook ends the host's run with the error's text and
//! does not return.

use vstd::prelude::*;
use vstd::string::*;
use crate::abi::LUA_ERRRUN;
use crate::classify::Classify;
use crate::error::{Error, ErrorKind, LuaResult};

verus! {

/// What the allocator does for one request of the machine.
#[derive(Debug, Clone, Copy, PartialEq, Eq, Structural)]
pub enum AllocAction {
    /// There is no block and none is wanted: hand back null.
    Nothing,
    /// Free the block of `size` bytes and hand back null.
    Free { size: usize },
    /// Allocate a block of `size` bytes.
    Allocate { size: usize },
    /// Resize the block of `old` bytes to `new` bytes.
    Resize { old: usize, new: usize },
}

/// The fatal-error hook's guard against entering itself.
#[derive(Debug)]
pub struct PanicHook {
    active: bool,
}

pub open spec fn alloc_default_spec(is_null: bool, osize: usize, nsize: usize) -> AllocAction {
    if nsize == 0 {
        if is_null {
            AllocAction::Nothing
        } else {
            AllocAction::Free { size: osize }
        }
    } else if is_null {
        AllocAction::Allocate { size: nsize }
    } else {
        AllocAction::Resize { old: osize, new: nsize }
    }
}

/// The default allocator's decision for a request on a block that is null
/// or `osize` bytes long, for a new size of `nsize` bytes: a new size of
/// zero frees, a null block allocates afresh, anything else resizes.
pub fn alloc_default(is_null: bool, osize: usize, nsize: usize) -> (action: AllocAction)
    ensures
        action == alloc_default_spec(is_null, osize, nsize),
{
    if nsize == 0 {
        if is_null {
            AllocAction::Nothing
        } else {
            AllocAction::Free { size: osize }
        }
    } else if is_null {
        AllocAction::Allocate { size: nsize }
    } else {
        AllocAction::Resize { old: osize, new: nsize }
    }
}

impl AllocAction {
    /// The bytes the allocator has handed out and not taken back, after this
    /// action on a ledger that stood at `held`; `done` tells whether an
    /// allocation or a resize gave memory.
    pub open spec fn held_after(self, held: int, done: bool) -> int {
        match self {
            AllocAction::Nothing => held,
            AllocAction::Free { size } => held - size,
            AllocAction::Allocate { size } => if done {
                held + size
            } else {
                held
            },
            AllocAction::Resize { old, new } => if done {
                held - old + new
            } else {
                held
            },
        }
    }

    /// Whether the action hands back null whatever the host's memory does.
    pub fn returns_null(&self) -> (b: bool)
        ensures
            b == (self is Nothing || self is Free),
    {
        match self {
            AllocAction::Nothing | AllocAction::Free { .. } => true,
            _ => false,
        }
    }
}

/// A block that is allocated, resized any way and freed leaves the ledger
/// where it stood.
pub proof fn lemma_alloc_balances(held: int, first: usize, second: usize)
    requires
        first != 0,
        second != 0,
    ensures
        ({
            let a = alloc_default_spec(true, 0, first);
            let b = alloc_default_spec(false, first, second);
            let c = alloc_default_spec(false, second, 0);
            c.held_after(b.held_after(a.held_after(held, true), true), true) == held
        }),
{
}

impl PanicHook {
    /// Whether the hook is running.
    pub closed spec fn active(self) -> bool {
        self.active
    }

    /// A hook that is not running.
    pub fn new() -> (h: PanicHook)
        ensures
            !h.active(),
    {
        PanicHook { active: false }
    }

    /// Enters the hook. The first entry begins the classification of the
    /// error in flight as a runtime error. An entry while the hook runs,
    /// which a failure of that classification causes, begins nothing: the
    /// hook then ends the host's run without a message.
    pub fn at_panic(&mut self) -> (c: Option<Classify>)
        ensures
            final(self).active(),
            old(self).active() ==> c is None,
            !old(self).active() ==> c == Some(Classify::start_spec(LUA_ERRRUN)),
    {
        if self.active {
            None
        } else {
            self.active = true;
            Some(Classify::start(LUA_ERRRUN))
        }
    }
}

pub open spec fn panic_text_spec(outcome: LuaResult<()>) -> Option<Seq<char>> {
    match outcome {
        Ok(_) => None,
        Err(e) => Some(
            "Lua panic: "@ + match e.msg {
                Some(m) => m@,
                None => "<no error message>"@,
            },
        ),
    }
}

/// The text the fatal-error hook ends the host's run with, given the
/// classification of the error in flight; none where there was no error and
/// the hook returns to the machine.
pub fn panic_text(outcome: &LuaResult<()>) -> (text: Option<String>)
    ensures
        crate::error::text_of(text) == panic_text_spec(*outcome),
{
    match outcome {
        Ok(_) => None,
        Err(e) => {
            let mut s = String::from_str("Lua panic: ");
            match &e.msg {
                Some(m) => s.append(m.as_str()),
                None => s.append("<no error message>"),
            }
            Some(s)
        },
    }
}

/// The hook never returns to the machine: the error in flight is classified
/// as a runtime error, so that the classification cannot pass and the hook
/// has a text to end with.
pub proof fn lemma_hook_never_returns(e: Error)
    ensures
        !(Classify::start_spec(LUA_ERRRUN) is Passed),
        Classify::start_spec(LUA_ERRRUN) == (Classify::Inspect { kind: ErrorKind::Runtime }),
        panic_text_spec(Err(e)) is Some,
{
}

} // verus!
