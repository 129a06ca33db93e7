//! The owner of one virtual machine, and the way one comes to be.
//!
//! A machine is created, given its fatal-error hook, and made to check its
//! own version in a protected call before any script runs. Only a machine
//! that passed has an owner; one that failed is destroyed at once.

use vstd::prelude::*;
use libc::c_int;
use crate::abi::LUA_OK;
use crate::classify::{look, pop_one, stringify, Classify};
use crate::error::{message_of, message_text, Error, ErrorKind, LuaResult};
use crate::call::{Caller, Global, Load, PushGlobal};
use crate::native::{lua_State, Op, Reply};

pub use crate::native::LoadingMode;

verus! {

/// The owner of one live virtual machine.
///
/// It comes from [`Spawn`], or from [`Thread::from_raw`] for a machine that
/// was created elsewhere, and ends in [`Thread::close`], which takes it by
/// value: an owner destroys its machine at most once.
#[derive(Debug)]
pub struct Thread {
    raw: lua_State,
}

/// A view of a machine that another [`Thread`] owns, for the time of one
/// callback. It gives every operation of the owner but the teardown.
#[derive(Debug)]
pub struct ThreadRef {
    thread: Thread,
}

/// The creation of a machine, from the allocation to the owner.
#[derive(Debug)]
pub enum Spawn {
    /// The machine is to be created.
    Create { default_allocator: bool },
    /// The fatal-error hook is to be installed.
    Hook,
    /// The version check is to be pushed.
    Stage,
    /// The version check is to be called.
    Check,
    /// The status of the version check is being classified.
    Verdict { inner: Classify },
    /// The check passed; the version is to be read.
    Measure,
    /// The check failed; the machine is to be destroyed.
    Teardown { kind: ErrorKind, text: Option<Vec<u8>> },
    /// The machine is live.
    Ready { version: u32 },
    /// There is no machine.
    Failed { kind: ErrorKind, text: Option<Vec<u8>> },
}

impl Thread {
    /// The state of the machine owned.
    pub closed spec fn raw_spec(self) -> lua_State {
        self.raw
    }

    /// The version number the machine reported when it was created.
    pub open spec fn version_spec(self) -> u32 {
        self.raw_spec().version
    }

    /// The state of the machine owned. Who holds it must not outlive the
    /// owner.
    pub fn as_raw(&mut self) -> (raw: lua_State)
        ensures
            raw == old(self).raw_spec(),
            *final(self) == *old(self),
    {
        self.raw
    }

    /// The owner of a live machine that was created elsewhere and has no
    /// owner yet.
    pub fn from_raw(raw: lua_State) -> (t: Thread)
        ensures
            t.raw_spec() == raw,
    {
        Thread { raw }
    }

    /// A view of a live machine that someone else owns.
    pub fn ref_from_raw(raw: lua_State) -> (r: ThreadRef)
        ensures
            r.deref_spec().raw_spec() == raw,
    {
        ThreadRef::from_raw(raw)
    }

    /// Begins the creation of a machine, with the caller's allocator or,
    /// without one, the host's default.
    pub fn new(custom_allocator: bool) -> (s: Spawn)
        ensures
            s == (Spawn::Create { default_allocator: !custom_allocator }),
    {
        Spawn::Create { default_allocator: !custom_allocator }
    }

    /// The machine's version number.
    pub fn version(&self) -> (v: u32)
        ensures
            v == self.version_spec(),
    {
        self.raw.version
    }

    /// Begins the classification of a status code the machine returned.
    pub fn get_error(&mut self, code: c_int) -> (c: Classify)
        ensures
            c == Classify::start_spec(code),
            *final(self) == *old(self),
    {
        Classify::start(code)
    }

    /// Begins the load of a chunk, whose bytes and name the host holds, as
    /// `mode` restricts its encoding.
    pub fn caller_load(&mut self, mode: LoadingMode) -> (l: Load)
        ensures
            l == (Load::Compile { mode }),
            *final(self) == *old(self),
    {
        Load::Compile { mode }
    }

    /// Begins the lookup of a global function, whose name the host holds.
    pub fn caller_global(&mut self) -> (g: Global)
        ensures
            g == (Global::Push { inner: PushGlobal::Globals }),
            *final(self) == *old(self),
    {
        Caller::from_global()
    }

    /// A caller for the value on top of a stack of depth `top`, which the
    /// one who calls this knows to be callable.
    pub fn caller_stack_unchecked(&mut self, top: c_int) -> (c: Caller)
        ensures
            c.base_spec() == top,
            c.nargs_spec() == 0,
            *final(self) == *old(self),
    {
        Caller::from_stack_unchecked(top)
    }

    /// Begins the fetch of a global, whose name the host holds, by raw
    /// lookup in the table of globals.
    pub fn push_global(&mut self) -> (g: PushGlobal)
        ensures
            g == PushGlobal::Globals,
            *final(self) == *old(self),
    {
        PushGlobal::Globals
    }

    /// Ends the owner's life: the one call that destroys the machine.
    pub fn close(self) -> (op: Op)
        ensures
            op == Op::Close,
    {
        Op::Close
    }
}

impl ThreadRef {
    /// A view of a live machine that someone else owns.
    pub fn from_raw(raw: lua_State) -> (r: ThreadRef)
        ensures
            r.deref_spec().raw_spec() == raw,
    {
        ThreadRef { thread: Thread { raw } }
    }

    /// A view of the machine `thread` owns.
    pub fn from_ref(thread: &mut Thread) -> (r: ThreadRef)
        ensures
            r.deref_spec() == *old(thread),
            *final(thread) == *old(thread),
    {
        ThreadRef { thread: Thread { raw: thread.raw } }
    }

    /// The owner's operations, as the view offers them.
    pub closed spec fn deref_spec(self) -> Thread {
        self.thread
    }

    pub fn deref(&self) -> (t: &Thread)
        ensures
            *t == self.deref_spec(),
    {
        &self.thread
    }

    pub fn deref_mut(&mut self) -> (t: &mut Thread)
        ensures
            *t == old(self).deref_spec(),
            final(self).deref_spec() == *final(t),
    {
        &mut self.thread
    }
}

impl Spawn {
    pub open spec fn pending_spec(self) -> Option<Op> {
        match self {
            Spawn::Create { default_allocator } => Some(Op::NewState { default_allocator }),
            Spawn::Hook => Some(Op::AtPanic),
            Spawn::Stage => Some(Op::PushVersionCheck),
            Spawn::Check => Some(Op::PCall { nargs: 0, nresults: 0 }),
            Spawn::Verdict { inner } => inner.pending_spec(),
            Spawn::Measure => Some(Op::Version),
            Spawn::Teardown { .. } => Some(Op::Close),
            Spawn::Ready { .. } | Spawn::Failed { .. } => None,
        }
    }

    /// The native call to make next; none once the outcome is known.
    pub fn pending(&self) -> (op: Option<Op>)
        ensures
            op == self.pending_spec(),
    {
        match self {
            Spawn::Create { default_allocator } => Some(
                Op::NewState { default_allocator: *default_allocator },
            ),
            Spawn::Hook => Some(Op::AtPanic),
            Spawn::Stage => Some(Op::PushVersionCheck),
            Spawn::Check => Some(Op::PCall { nargs: 0, nresults: 0 }),
            Spawn::Verdict { inner } => inner.pending(),
            Spawn::Measure => Some(Op::Version),
            Spawn::Teardown { .. } => Some(Op::Close),
            Spawn::Ready { .. } | Spawn::Failed { .. } => None,
        }
    }

    /// Where the creation goes once the version check's status is being
    /// classified and the classification stands at `inner`.
    pub open spec fn after_verdict(inner: Classify) -> Spawn {
        match inner {
            Classify::Passed => Spawn::Measure,
            Classify::Failed { kind, text } => Spawn::Teardown { kind, text },
            _ => Spawn::Verdict { inner },
        }
    }

    pub open spec fn resume_spec(self, reply: Reply) -> Spawn {
        match (self, reply) {
            (Spawn::Create { .. }, Reply::Created(made)) => if made {
                Spawn::Hook
            } else {
                Spawn::Failed { kind: ErrorKind::OutOfMemory, text: None }
            },
            (Spawn::Hook, Reply::Unit) => Spawn::Stage,
            (Spawn::Stage, Reply::Unit) => Spawn::Check,
            (Spawn::Check, Reply::Status(code)) => Self::after_verdict(Classify::start_spec(code)),
            (Spawn::Verdict { inner }, reply) => Self::after_verdict(inner.resume_spec(reply)),
            (Spawn::Measure, Reply::Number(version)) => Spawn::Ready { version },
            (Spawn::Teardown { kind, text }, Reply::Unit) => Spawn::Failed { kind, text },
            _ => self,
        }
    }

    fn settle(inner: Classify) -> (next: Spawn)
        ensures
            next == Self::after_verdict(inner),
    {
        match inner {
            Classify::Passed => Spawn::Measure,
            Classify::Failed { kind, text } => Spawn::Teardown { kind, text },
            inner => Spawn::Verdict { inner },
        }
    }

    /// Takes the answer to the pending call. An answer of another kind than
    /// the pending call gives changes nothing.
    pub fn resume(self, reply: Reply) -> (next: Spawn)
        ensures
            next == self.resume_spec(reply),
    {
        match (self, reply) {
            (Spawn::Create { .. }, Reply::Created(made)) => if made {
                Spawn::Hook
            } else {
                Spawn::Failed { kind: ErrorKind::OutOfMemory, text: None }
            },
            (Spawn::Hook, Reply::Unit) => Spawn::Stage,
            (Spawn::Stage, Reply::Unit) => Spawn::Check,
            (Spawn::Check, Reply::Status(code)) => Self::settle(Classify::start(code)),
            (Spawn::Verdict { inner }, reply) => Self::settle(inner.resume(reply)),
            (Spawn::Measure, Reply::Number(version)) => Spawn::Ready { version },
            (Spawn::Teardown { kind, text }, Reply::Unit) => Spawn::Failed { kind, text },
            (state, _) => state,
        }
    }

    /// The owner or the error, once the creation is over; none while a call
    /// is pending.
    pub fn outcome(self) -> (r: Option<LuaResult<Thread>>)
        ensures
            match self {
                Spawn::Ready { version } => r matches Some(Ok(t)) && t.version_spec() == version,
                Spawn::Failed { kind, text } => r matches Some(Err(e)) && e.kind == kind
                    && e.text() == message_of(text),
                _ => r is None,
            },
    {
        match self {
            Spawn::Ready { version } => Some(Ok(Thread { raw: lua_State { version } })),
            Spawn::Failed { kind, text } => Some(Err(Error::new(kind, message_text(text)))),
            _ => None,
        }
    }
}

/// The call of the version check: no arguments, no results.
pub open spec fn check() -> Op {
    Op::PCall { nargs: 0, nresults: 0 }
}

/// Where no memory is to be had, the creation ends at once in an
/// out-of-memory error without a message: no hook is installed, nothing runs
/// and nothing is destroyed.
pub proof fn lemma_spawn_out_of_memory(custom_allocator: bool)
    ensures
        ({
            let s0 = Spawn::Create { default_allocator: !custom_allocator };
            let s1 = s0.resume_spec(Reply::Created(false));
            &&& s0.pending_spec() == Some(Op::NewState { default_allocator: !custom_allocator })
            &&& s1 == (Spawn::Failed { kind: ErrorKind::OutOfMemory, text: None })
            &&& s1.pending_spec() is None
        }),
{
}

/// A machine that passes its version check gets its owner: the hook is
/// installed before the check runs, the check leaves the stack empty, and
/// the owner reports the version the machine gave. Nothing is destroyed.
pub proof fn lemma_spawn_ready(custom_allocator: bool, version: u32, d1: int, d2: int)
    requires
        Op::PushVersionCheck.effect(Reply::Unit, 0, d1),
        check().effect(Reply::Status(LUA_OK), d1, d2),
    ensures
        ({
            let s1 = Spawn::Create { default_allocator: !custom_allocator }.resume_spec(
                Reply::Created(true),
            );
            let s2 = s1.resume_spec(Reply::Unit);
            let s3 = s2.resume_spec(Reply::Unit);
            let s4 = s3.resume_spec(Reply::Status(LUA_OK));
            let s5 = s4.resume_spec(Reply::Number(version));
            &&& s1.pending_spec() == Some(Op::AtPanic)
            &&& s2.pending_spec() == Some(Op::PushVersionCheck)
            &&& s3.pending_spec() == Some(check())
            &&& s4.pending_spec() == Some(Op::Version)
            &&& s5 == (Spawn::Ready { version })
        }),
        Op::PushVersionCheck.allowed(0),
        check().allowed(d1),
        d2 == 0,
{
}

/// A machine that fails its version check gets no owner. The status of the
/// check is classified with the error value the check left, the machine is
/// destroyed, once, and the error is the outcome.
pub proof fn lemma_spawn_rejected(
    custom_allocator: bool,
    code: c_int,
    top: c_int,
    text: Option<Vec<u8>>,
    d1: int,
    d2: int,
    d3: int,
    d4: int,
    d5: int,
)
    requires
        code != LUA_OK,
        Op::PushVersionCheck.effect(Reply::Unit, 0, d1),
        check().effect(Reply::Status(code), d1, d2),
        look().effect(Reply::Depth(top), d2, d3),
        stringify().effect(Reply::Text(text), d3, d4),
        pop_one().effect(Reply::Unit, d4, d5),
    ensures
        ({
            let s3 = Spawn::Create { default_allocator: !custom_allocator }.resume_spec(
                Reply::Created(true),
            ).resume_spec(Reply::Unit).resume_spec(Reply::Unit);
            let s4 = s3.resume_spec(Reply::Status(code));
            let s5 = s4.resume_spec(Reply::Depth(top));
            let s6 = s5.resume_spec(Reply::Text(text));
            let s7 = s6.resume_spec(Reply::Unit);
            let s8 = s7.resume_spec(Reply::Unit);
            &&& s3.pending_spec() == Some(check())
            &&& s4.pending_spec() == Some(look())
            &&& s5.pending_spec() == Some(stringify())
            &&& s6.pending_spec() == Some(pop_one())
            &&& s7.pending_spec() == Some(Op::Close)
            &&& ErrorKind::of_status(code as int) matches Some(kind)
            &&& s8 == (Spawn::Failed { kind, text })
        }),
        top == 1,
        d5 == 1,
{
}

} // verus!
