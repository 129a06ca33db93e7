//! One call of a function of the virtual machine: how the callable comes to
//! stand on the stack, how its arguments are counted, how it is called in
//! protected mode, and where its results lie afterwards.

use vstd::prelude::*;
use libc::c_int;
use crate::abi::{
    LUAI_MAXSTACK, LUA_MULTRET, LUA_OK, LUA_REGISTRYINDEX, LUA_RIDX_GLOBALS, LUA_TFUNCTION,
};
use crate::classify::{look, pop_one, stringify, Classify};
use crate::error::{message_of, message_text, Error, ErrorKind, LuaResult};
use crate::native::{lua_pop, lua_pushglobaltable, lua_replace, LoadingMode, Op, Reply};

verus! {

/// A callable on the stack with the arguments pushed above it so far.
#[derive(Debug)]
pub struct Caller {
    base: c_int,
    nargs: c_int,
}

/// The values a call returned, as they lie on the stack.
#[derive(Debug)]
pub struct Results {
    base: c_int,
    count: c_int,
}

/// An index past the last result.
#[derive(Debug, Clone, Copy, PartialEq, Eq, Structural)]
pub struct OutOfRange {
    pub index: usize,
    pub len: usize,
}

/// The fetch of a global by name: the value bound to the name, or nil, ends
/// on top of the stack, and its type tag is the outcome.
#[derive(Debug, Clone, Copy, PartialEq, Eq, Structural)]
pub enum PushGlobal {
    /// The table of globals is to be pushed.
    Globals,
    /// The name is to be pushed.
    Name,
    /// The name is to be looked up, without metamethods.
    Fetch,
    /// The value is to be copied over the table of globals.
    Settle { tag: c_int },
    /// The value's second copy is to be popped.
    Trim { tag: c_int },
    /// The value stands on top.
    Done { tag: c_int },
}

/// The making of a [`Caller`] for a global function.
#[derive(Debug, Clone, Copy, PartialEq, Eq, Structural)]
pub enum Global {
    /// The global is being fetched.
    Push { inner: PushGlobal },
    /// The global is a function; its place on the stack is wanted.
    Locate,
    /// The global is no function and is to be popped.
    Discard,
    /// The function stands on top, at `base`.
    Found { base: c_int },
    /// No function is bound to the name.
    Missing,
}

/// The making of a [`Caller`] for a chunk of source or of compiled code.
#[derive(Debug)]
pub enum Load {
    /// The chunk is to be compiled.
    Compile { mode: LoadingMode },
    /// The loader's status is being classified.
    Verdict { inner: Classify },
    /// The chunk compiled; its place on the stack is wanted.
    Locate,
    /// The compiled chunk stands on top, at `base`.
    Ready { base: c_int },
    /// The chunk did not load.
    Failed { kind: ErrorKind, text: Option<Vec<u8>> },
}

/// One protected call.
#[derive(Debug)]
pub enum Invoke {
    /// The callable is to be called.
    Call { base: c_int, nargs: c_int, nresults: c_int },
    /// The status of the call is being classified.
    Verdict { inner: Classify },
    /// The call returned all its results; the depth of the stack is wanted.
    Count { base: c_int },
    /// The call returned `count` results, the first of them at `base`.
    Returned { base: c_int, count: c_int },
    /// The call raised an error.
    Failed { kind: ErrorKind, text: Option<Vec<u8>> },
}

impl PushGlobal {
    pub open spec fn pending_spec(self) -> Option<Op> {
        match self {
            PushGlobal::Globals => Some(
                Op::RawGetI { index: LUA_REGISTRYINDEX, n: LUA_RIDX_GLOBALS },
            ),
            PushGlobal::Name => Some(Op::PushLString),
            PushGlobal::Fetch => Some(Op::RawGet { index: -2 as c_int }),
            PushGlobal::Settle { .. } => Some(
                Op::Copy { from: -1 as c_int, to: -2 as c_int },
            ),
            PushGlobal::Trim { .. } => Some(Op::SetTop { index: -2 as c_int }),
            PushGlobal::Done { .. } => None,
        }
    }

    /// The native call to make next; none once the value stands on top.
    pub fn pending(&self) -> (op: Option<Op>)
        ensures
            op == self.pending_spec(),
    {
        match self {
            PushGlobal::Globals => Some(lua_pushglobaltable()),
            PushGlobal::Name => Some(Op::PushLString),
            PushGlobal::Fetch => Some(Op::RawGet { index: -2 }),
            PushGlobal::Settle { .. } => Some(lua_replace(-2).0),
            PushGlobal::Trim { .. } => Some(lua_replace(-2).1),
            PushGlobal::Done { .. } => None,
        }
    }

    pub open spec fn resume_spec(self, reply: Reply) -> PushGlobal {
        match (self, reply) {
            (PushGlobal::Globals, Reply::Tag(_)) => PushGlobal::Name,
            (PushGlobal::Name, Reply::Unit) => PushGlobal::Fetch,
            (PushGlobal::Fetch, Reply::Tag(tag)) => PushGlobal::Settle { tag },
            (PushGlobal::Settle { tag }, Reply::Unit) => PushGlobal::Trim { tag },
            (PushGlobal::Trim { tag }, Reply::Unit) => PushGlobal::Done { tag },
            _ => self,
        }
    }

    /// Takes the answer to the pending call. An answer of another kind than
    /// the pending call gives changes nothing.
    pub fn resume(self, reply: Reply) -> (next: PushGlobal)
        ensures
            next == self.resume_spec(reply),
    {
        match (self, reply) {
            (PushGlobal::Globals, Reply::Tag(_)) => PushGlobal::Name,
            (PushGlobal::Name, Reply::Unit) => PushGlobal::Fetch,
            (PushGlobal::Fetch, Reply::Tag(tag)) => PushGlobal::Settle { tag },
            (PushGlobal::Settle { tag }, Reply::Unit) => PushGlobal::Trim { tag },
            (PushGlobal::Trim { tag }, Reply::Unit) => PushGlobal::Done { tag },
            (state, _) => state,
        }
    }

    /// The type tag of the value fetched; none while a call is pending.
    pub fn outcome(self) -> (r: Option<c_int>)
        ensures
            r == match self {
                PushGlobal::Done { tag } => Some(tag),
                _ => None,
            },
    {
        match self {
            PushGlobal::Done { tag } => Some(tag),
            _ => None,
        }
    }
}

impl Global {
    pub open spec fn pending_spec(self) -> Option<Op> {
        match self {
            Global::Push { inner } => inner.pending_spec(),
            Global::Locate => Some(Op::GetTop),
            Global::Discard => Some(Op::SetTop { index: -2 as c_int }),
            Global::Found { .. } | Global::Missing => None,
        }
    }

    /// The native call to make next; none once the outcome is known.
    pub fn pending(&self) -> (op: Option<Op>)
        ensures
            op == self.pending_spec(),
    {
        match self {
            Global::Push { inner } => inner.pending(),
            Global::Locate => Some(Op::GetTop),
            Global::Discard => Some(lua_pop(1)),
            Global::Found { .. } | Global::Missing => None,
        }
    }

    /// Where the lookup goes once the fetch stands at `inner`.
    pub open spec fn after_push(inner: PushGlobal) -> Global {
        match inner {
            PushGlobal::Done { tag } => if tag == LUA_TFUNCTION {
                Global::Locate
            } else {
                Global::Discard
            },
            _ => Global::Push { inner },
        }
    }

    pub open spec fn resume_spec(self, reply: Reply) -> Global {
        match (self, reply) {
            (Global::Push { inner }, reply) => Self::after_push(inner.resume_spec(reply)),
            (Global::Locate, Reply::Depth(base)) => Global::Found { base },
            (Global::Discard, Reply::Unit) => Global::Missing,
            _ => self,
        }
    }

    /// Takes the answer to the pending call. An answer of another kind than
    /// the pending call gives changes nothing.
    pub fn resume(self, reply: Reply) -> (next: Global)
        ensures
            next == self.resume_spec(reply),
    {
        match (self, reply) {
            (Global::Push { inner }, reply) => match inner.resume(reply) {
                PushGlobal::Done { tag } => if tag == LUA_TFUNCTION {
                    Global::Locate
                } else {
                    Global::Discard
                },
                inner => Global::Push { inner },
            },
            (Global::Locate, Reply::Depth(base)) => Global::Found { base },
            (Global::Discard, Reply::Unit) => Global::Missing,
            (state, _) => state,
        }
    }

    /// Whether the lookup is over.
    pub open spec fn is_done(self) -> bool {
        self is Found || self is Missing
    }

    /// The caller of the global function, where the name is bound to one;
    /// none where it is not, and none while a call is pending.
    pub fn outcome(self) -> (r: Option<Caller>)
        ensures
            match self {
                Global::Found { base } => r matches Some(c) && c.base_spec() == base
                    && c.nargs_spec() == 0,
                _ => r is None,
            },
    {
        match self {
            Global::Found { base } => Some(Caller { base, nargs: 0 }),
            _ => None,
        }
    }
}

impl Load {
    pub open spec fn pending_spec(self) -> Option<Op> {
        match self {
            Load::Compile { mode } => Some(Op::LoadBuffer { mode }),
            Load::Verdict { inner } => inner.pending_spec(),
            Load::Locate => Some(Op::GetTop),
            Load::Ready { .. } | Load::Failed { .. } => None,
        }
    }

    /// The native call to make next; none once the outcome is known.
    pub fn pending(&self) -> (op: Option<Op>)
        ensures
            op == self.pending_spec(),
    {
        match self {
            Load::Compile { mode } => Some(Op::LoadBuffer { mode: *mode }),
            Load::Verdict { inner } => inner.pending(),
            Load::Locate => Some(Op::GetTop),
            Load::Ready { .. } | Load::Failed { .. } => None,
        }
    }

    /// Where the load goes once the classification of the loader's status
    /// stands at `inner`.
    pub open spec fn after_verdict(inner: Classify) -> Load {
        match inner {
            Classify::Passed => Load::Locate,
            Classify::Failed { kind, text } => Load::Failed { kind, text },
            _ => Load::Verdict { inner },
        }
    }

    pub open spec fn resume_spec(self, reply: Reply) -> Load {
        match (self, reply) {
            (Load::Compile { .. }, Reply::Status(code)) => Self::after_verdict(
                Classify::start_spec(code),
            ),
            (Load::Verdict { inner }, reply) => Self::after_verdict(inner.resume_spec(reply)),
            (Load::Locate, Reply::Depth(base)) => Load::Ready { base },
            _ => self,
        }
    }

    fn settle(inner: Classify) -> (next: Load)
        ensures
            next == Self::after_verdict(inner),
    {
        match inner {
            Classify::Passed => Load::Locate,
            Classify::Failed { kind, text } => Load::Failed { kind, text },
            inner => Load::Verdict { inner },
        }
    }

    /// Takes the answer to the pending call. An answer of another kind than
    /// the pending call gives changes nothing.
    pub fn resume(self, reply: Reply) -> (next: Load)
        ensures
            next == self.resume_spec(reply),
    {
        match (self, reply) {
            (Load::Compile { .. }, Reply::Status(code)) => Self::settle(Classify::start(code)),
            (Load::Verdict { inner }, reply) => Self::settle(inner.resume(reply)),
            (Load::Locate, Reply::Depth(base)) => Load::Ready { base },
            (state, _) => state,
        }
    }

    /// The caller of the chunk or the loader's error, once the load is over;
    /// none while a call is pending.
    pub fn outcome(self) -> (r: Option<LuaResult<Caller>>)
        ensures
            match self {
                Load::Ready { base } => r matches Some(Ok(c)) && c.base_spec() == base
                    && c.nargs_spec() == 0,
                Load::Failed { kind, text } => r matches Some(Err(e)) && e.kind == kind
                    && e.text() == message_of(text),
                _ => r is None,
            },
    {
        match self {
            Load::Ready { base } => Some(Ok(Caller { base, nargs: 0 })),
            Load::Failed { kind, text } => Some(Err(Error::new(kind, message_text(text)))),
            _ => None,
        }
    }
}

impl Caller {
    /// The stack index of the callable.
    pub closed spec fn base_spec(self) -> c_int {
        self.base
    }

    /// The number of arguments above the callable.
    pub closed spec fn nargs_spec(self) -> c_int {
        self.nargs
    }

    /// The depth of the stack while the callable and its arguments are the
    /// topmost values.
    pub open spec fn depth_spec(self) -> int {
        self.base_spec() + self.nargs_spec()
    }

    /// Whether the callable and its arguments name slots of a stack: the
    /// callable lies at a positive index and the count is not negative.
    pub open spec fn on_stack(self) -> bool {
        1 <= self.base_spec() && 0 <= self.nargs_spec()
    }

    /// A caller for the value on top of a stack of depth `top`, which the
    /// one who calls this knows to be callable; nothing here looks at it.
    pub fn from_stack_unchecked(top: c_int) -> (c: Caller)
        ensures
            c.base_spec() == top,
            c.nargs_spec() == 0,
    {
        Caller { base: top, nargs: 0 }
    }

    /// Begins the lookup of a global function.
    pub fn from_global() -> (g: Global)
        ensures
            g == (Global::Push { inner: PushGlobal::Globals }),
    {
        Global::Push { inner: PushGlobal::Globals }
    }

    pub fn base(&self) -> (b: c_int)
        ensures
            b == self.base_spec(),
    {
        self.base
    }

    pub fn nargs(&self) -> (n: c_int)
        ensures
            n == self.nargs_spec(),
    {
        self.nargs
    }

    /// Counts one more argument and tells the stack index it is pushed to,
    /// which lies above the callable and every earlier argument. Where the
    /// stack has no room for it, or the callable lies at no slot of a stack,
    /// nothing is counted.
    pub fn push_arg(&mut self) -> (slot: Option<c_int>)
        ensures
            final(self).base_spec() == old(self).base_spec(),
            slot is Some <==> old(self).on_stack() && old(self).depth_spec() < LUAI_MAXSTACK,
            slot matches Some(i) ==> i == old(self).depth_spec() + 1 && final(self).nargs_spec()
                == old(self).nargs_spec() + 1,
            slot is None ==> final(self).nargs_spec() == old(self).nargs_spec(),
    {
        if self.base < 1 || self.nargs < 0 || self.base >= LUAI_MAXSTACK || self.nargs
            >= LUAI_MAXSTACK - self.base {
            return None;
        }
        self.nargs = self.nargs + 1;
        Some(self.base + self.nargs)
    }

    /// Begins the protected call, asking for `nresults` results or, with
    /// [`LUA_MULTRET`], for all of them.
    pub fn invoke(self, nresults: c_int) -> (i: Invoke)
        requires
            nresults >= LUA_MULTRET,
        ensures
            i == (Invoke::Call {
                base: self.base_spec(),
                nargs: self.nargs_spec(),
                nresults,
            }),
    {
        Invoke::Call { base: self.base, nargs: self.nargs, nresults }
    }
}

impl Invoke {
    pub open spec fn pending_spec(self) -> Option<Op> {
        match self {
            Invoke::Call { nargs, nresults, .. } => Some(Op::PCall { nargs, nresults }),
            Invoke::Verdict { inner } => inner.pending_spec(),
            Invoke::Count { .. } => Some(Op::GetTop),
            Invoke::Returned { .. } | Invoke::Failed { .. } => None,
        }
    }

    /// The native call to make next; none once the outcome is known.
    pub fn pending(&self) -> (op: Option<Op>)
        ensures
            op == self.pending_spec(),
    {
        match self {
            Invoke::Call { nargs, nresults, .. } => Some(
                Op::PCall { nargs: *nargs, nresults: *nresults },
            ),
            Invoke::Verdict { inner } => inner.pending(),
            Invoke::Count { .. } => Some(Op::GetTop),
            Invoke::Returned { .. } | Invoke::Failed { .. } => None,
        }
    }

    /// Where the call goes once the classification of its status stands at
    /// `inner`. A status of success never gets here.
    pub open spec fn after_verdict(inner: Classify) -> Invoke {
        match inner {
            Classify::Failed { kind, text } => Invoke::Failed { kind, text },
            _ => Invoke::Verdict { inner },
        }
    }

    /// The number of results that leave a stack of depth `top` when the
    /// first of them lies at `base`.
    pub open spec fn counted(base: c_int, top: c_int) -> int {
        top - base + 1
    }

    pub open spec fn resume_spec(self, reply: Reply) -> Invoke {
        match (self, reply) {
            (Invoke::Call { base, nresults, .. }, Reply::Status(code)) => if code != LUA_OK {
                Self::after_verdict(Classify::start_spec(code))
            } else if nresults == LUA_MULTRET {
                Invoke::Count { base }
            } else {
                Invoke::Returned { base, count: nresults }
            },
            (Invoke::Verdict { inner }, reply) => Self::after_verdict(inner.resume_spec(reply)),
            (Invoke::Count { base }, Reply::Depth(top)) => if 0 <= Self::counted(base, top)
                <= c_int::MAX {
                Invoke::Returned { base, count: Self::counted(base, top) as c_int }
            } else {
                self
            },
            _ => self,
        }
    }

    fn settle(inner: Classify) -> (next: Invoke)
        ensures
            next == Self::after_verdict(inner),
    {
        match inner {
            Classify::Failed { kind, text } => Invoke::Failed { kind, text },
            inner => Invoke::Verdict { inner },
        }
    }

    /// Takes the answer to the pending call. An answer of another kind than
    /// the pending call gives, or a depth that lies below the callable,
    /// changes nothing.
    pub fn resume(self, reply: Reply) -> (next: Invoke)
        ensures
            next == self.resume_spec(reply),
    {
        match (self, reply) {
            (Invoke::Call { base, nargs, nresults }, Reply::Status(code)) => if code != LUA_OK {
                Self::settle(Classify::start(code))
            } else if nresults == LUA_MULTRET {
                Invoke::Count { base }
            } else {
                Invoke::Returned { base, count: nresults }
            },
            (Invoke::Verdict { inner }, reply) => Self::settle(inner.resume(reply)),
            (Invoke::Count { base }, Reply::Depth(top)) => {
                let count: i64 = top as i64 - base as i64 + 1;
                if 0 <= count && count <= c_int::MAX as i64 {
                    Invoke::Returned { base, count: count as c_int }
                } else {
                    Invoke::Count { base }
                }
            },
            (state, _) => state,
        }
    }

    /// The results or the error, once the call is over; none while a native
    /// call is pending.
    pub fn outcome(self) -> (r: Option<LuaResult<Results>>)
        ensures
            match self {
                Invoke::Returned { base, count } => r matches Some(Ok(v)) && v.base_spec() == base
                    && v.count_spec() == count,
                Invoke::Failed { kind, text } => r matches Some(Err(e)) && e.kind == kind
                    && e.text() == message_of(text),
                _ => r is None,
            },
    {
        match self {
            Invoke::Returned { base, count } => Some(Ok(Results { base, count })),
            Invoke::Failed { kind, text } => Some(Err(Error::new(kind, message_text(text)))),
            _ => None,
        }
    }
}

impl Results {
    /// The stack index of the first result.
    pub closed spec fn base_spec(self) -> c_int {
        self.base
    }

    /// The number of results.
    pub closed spec fn count_spec(self) -> c_int {
        self.count
    }

    /// The number of results, none for a count below zero.
    pub open spec fn len_spec(self) -> nat {
        if self.count_spec() >= 0 {
            self.count_spec() as nat
        } else {
            0
        }
    }

    pub fn len(&self) -> (n: usize)
        ensures
            n == self.len_spec(),
    {
        if self.count >= 0 {
            self.count as usize
        } else {
            0
        }
    }

    /// The stack index of the `i`-th result, counted from zero; an error for
    /// an `i` past the last result.
    pub fn index(&self, i: usize) -> (r: Result<c_int, OutOfRange>)
        ensures
            i < self.len_spec() && self.base_spec() + i <= c_int::MAX ==> r == Ok::<
                c_int,
                OutOfRange,
            >((self.base_spec() + i) as c_int),
            !(i < self.len_spec() && self.base_spec() + i <= c_int::MAX) ==> r == Err::<
                c_int,
                OutOfRange,
            >(OutOfRange { index: i, len: self.len_spec() as usize }),
    {
        let len = self.len();
        if i < len && (i as i64) <= c_int::MAX as i64 - self.base as i64 {
            Ok((self.base as i64 + i as i64) as c_int)
        } else {
            Err(OutOfRange { index: i, len })
        }
    }
}

/// The fetch of a global as far as the answers to its five calls take it,
/// where the table of globals has the type tag `table` and the value bound
/// to the name the type tag `tag`.
pub open spec fn fetched(table: c_int, tag: c_int) -> PushGlobal {
    PushGlobal::Globals.resume_spec(Reply::Tag(table)).resume_spec(Reply::Unit).resume_spec(
        Reply::Tag(tag),
    ).resume_spec(Reply::Unit).resume_spec(Reply::Unit)
}

/// Whether the five calls of a fetch, with these answers, take the stack
/// from depth `d0` through the depths `d1` to `d4` to depth `d5`.
pub open spec fn fetch_trace(
    table: c_int,
    tag: c_int,
    d0: int,
    d1: int,
    d2: int,
    d3: int,
    d4: int,
    d5: int,
) -> bool {
    &&& 0 <= d0
    &&& (Op::RawGetI { index: LUA_REGISTRYINDEX, n: LUA_RIDX_GLOBALS }).effect(
        Reply::Tag(table),
        d0,
        d1,
    )
    &&& Op::PushLString.effect(Reply::Unit, d1, d2)
    &&& (Op::RawGet { index: -2 as c_int }).effect(Reply::Tag(tag), d2, d3)
    &&& (Op::Copy { from: -1 as c_int, to: -2 as c_int }).effect(Reply::Unit, d3, d4)
    &&& pop_one().effect(Reply::Unit, d4, d5)
}

/// The fetch of a global makes five calls, each one the stack allows: it
/// pushes the table of globals and the name, looks the name up without
/// metamethods, and moves the value into the table's slot. The outcome is
/// the type tag the lookup reported, and the stack ends one deeper than it
/// began.
pub proof fn lemma_push_global(
    table: c_int,
    tag: c_int,
    d0: int,
    d1: int,
    d2: int,
    d3: int,
    d4: int,
    d5: int,
)
    requires
        fetch_trace(table, tag, d0, d1, d2, d3, d4, d5),
    ensures
        ({
            let g0 = PushGlobal::Globals;
            let g1 = g0.resume_spec(Reply::Tag(table));
            let g2 = g1.resume_spec(Reply::Unit);
            let g3 = g2.resume_spec(Reply::Tag(tag));
            let g4 = g3.resume_spec(Reply::Unit);
            &&& g0.pending_spec() matches Some(op0) && op0.allowed(d0)
            &&& g1.pending_spec() matches Some(op1) && op1.allowed(d1)
            &&& g2.pending_spec() matches Some(op2) && op2.allowed(d2)
            &&& g3.pending_spec() matches Some(op3) && op3.allowed(d3)
            &&& g4.pending_spec() matches Some(op4) && op4.allowed(d4)
        }),
        fetched(table, tag) == (PushGlobal::Done { tag }),
        d5 == d0 + 1,
{
}

/// A name bound to a function gives a caller: after the fetch the depth of
/// the stack is read, the function lies on top at that depth, one above
/// where the stack began, and no argument is counted yet.
pub proof fn lemma_global_found(
    table: c_int,
    d0: int,
    d1: int,
    d2: int,
    d3: int,
    d4: int,
    d5: int,
    d6: int,
)
    requires
        fetch_trace(table, LUA_TFUNCTION, d0, d1, d2, d3, d4, d5),
        Op::GetTop.effect(Reply::Depth(d5 as c_int), d5, d6),
    ensures
        ({
            let g5 = Global::after_push(fetched(table, LUA_TFUNCTION));
            &&& g5.pending_spec() == Some(Op::GetTop)
            &&& g5.resume_spec(Reply::Depth(d5 as c_int)) == (Global::Found {
                base: (d0 + 1) as c_int,
            })
        }),
        d6 == d0 + 1,
{
}

/// A name that is unbound, or bound to a value that is no function, gives
/// no caller and no error: the value fetched is popped, and the stack ends
/// as deep as it began.
pub proof fn lemma_global_missing(
    table: c_int,
    tag: c_int,
    d0: int,
    d1: int,
    d2: int,
    d3: int,
    d4: int,
    d5: int,
    d6: int,
)
    requires
        tag != LUA_TFUNCTION,
        fetch_trace(table, tag, d0, d1, d2, d3, d4, d5),
        pop_one().effect(Reply::Unit, d5, d6),
    ensures
        ({
            let g5 = Global::after_push(fetched(table, tag));
            &&& g5.pending_spec() == Some(pop_one())
            &&& pop_one().allowed(d5)
            &&& g5.resume_spec(Reply::Unit) == Global::Missing
        }),
        d6 == d0,
{
}

/// The lookup of a global, begun afresh, stands after the five answers of
/// the fetch where the value's type tag sends it.
pub proof fn lemma_global_follows_fetch(table: c_int, tag: c_int)
    ensures
        (Global::Push { inner: PushGlobal::Globals }).resume_spec(Reply::Tag(table)).resume_spec(
            Reply::Unit,
        ).resume_spec(Reply::Tag(tag)).resume_spec(Reply::Unit).resume_spec(Reply::Unit)
            == Global::after_push(fetched(table, tag)),
{
}

/// A chunk that compiles gives a caller: the compiled chunk is pushed, the
/// depth of the stack is read, and the chunk lies on top at that depth with
/// no argument counted.
pub proof fn lemma_load_ready(mode: LoadingMode, d0: int, d1: int, d2: int)
    requires
        0 <= d0,
        (Op::LoadBuffer { mode }).effect(Reply::Status(LUA_OK), d0, d1),
        Op::GetTop.effect(Reply::Depth(d1 as c_int), d1, d2),
    ensures
        ({
            let l0 = Load::Compile { mode };
            let l1 = l0.resume_spec(Reply::Status(LUA_OK));
            &&& l0.pending_spec() matches Some(op0) && op0.allowed(d0)
            &&& l1.pending_spec() == Some(Op::GetTop)
            &&& l1.resume_spec(Reply::Depth(d1 as c_int)) == (Load::Ready {
                base: (d0 + 1) as c_int,
            })
        }),
        d2 == d0 + 1,
{
}

/// A chunk that does not load gives no caller: the loader's status is
/// classified with the message the loader pushed, which stays on the stack,
/// and the error is the outcome.
pub proof fn lemma_load_failed(
    mode: LoadingMode,
    code: c_int,
    text: Option<Vec<u8>>,
    d0: int,
    d1: int,
    d2: int,
    d3: int,
    d4: int,
)
    requires
        code != LUA_OK,
        0 <= d0,
        (Op::LoadBuffer { mode }).effect(Reply::Status(code), d0, d1),
        look().effect(Reply::Depth(d1 as c_int), d1, d2),
        stringify().effect(Reply::Text(text), d2, d3),
        pop_one().effect(Reply::Unit, d3, d4),
    ensures
        ({
            let l1 = (Load::Compile { mode }).resume_spec(Reply::Status(code));
            let l2 = l1.resume_spec(Reply::Depth(d1 as c_int));
            let l3 = l2.resume_spec(Reply::Text(text));
            let l4 = l3.resume_spec(Reply::Unit);
            &&& l1.pending_spec() == Some(look())
            &&& l2.pending_spec() == Some(stringify())
            &&& l3.pending_spec() == Some(pop_one())
            &&& ErrorKind::of_status(code as int) matches Some(kind)
            &&& l4 == (Load::Failed { kind, text })
        }),
        stringify().allowed(d2),
        pop_one().allowed(d3),
        d4 == d0 + 1,
{
}

/// The protected call of a callable at `base` under `nargs` arguments.
pub open spec fn call_of(base: c_int, nargs: c_int, nresults: c_int) -> Invoke {
    Invoke::Call { base, nargs, nresults }
}

/// A call that succeeds with a fixed number of results asked for returns
/// that many: they replace the callable and its arguments, so that the stack
/// afterwards is as deep as before, less the arguments and the callable,
/// plus the results. The first result lies where the callable lay.
pub proof fn lemma_invoke_returns_fixed(base: c_int, nargs: c_int, nresults: c_int, after: int)
    requires
        1 <= base,
        0 <= nargs,
        0 <= nresults,
        base + nargs <= LUAI_MAXSTACK,
        (Op::PCall { nargs, nresults }).effect(Reply::Status(LUA_OK), base + nargs, after),
    ensures
        call_of(base, nargs, nresults).pending_spec() == Some(Op::PCall { nargs, nresults }),
        (Op::PCall { nargs, nresults }).allowed(base + nargs),
        call_of(base, nargs, nresults).resume_spec(Reply::Status(LUA_OK)) == (Invoke::Returned {
            base,
            count: nresults,
        }),
        after == (base + nargs) - nargs - 1 + nresults,
{
}

/// A call that succeeds with all results asked for returns as many as the
/// depth of the stack afterwards tells: the stack is then as deep as before,
/// less the arguments and the callable, plus the results counted. The first
/// result lies where the callable lay.
pub proof fn lemma_invoke_returns_all(base: c_int, nargs: c_int, after: int, last: int)
    requires
        1 <= base,
        0 <= nargs,
        base + nargs <= LUAI_MAXSTACK,
        (Op::PCall { nargs, nresults: LUA_MULTRET }).effect(
            Reply::Status(LUA_OK),
            base + nargs,
            after,
        ),
        Op::GetTop.effect(Reply::Depth(after as c_int), after, last),
    ensures
        (Op::PCall { nargs, nresults: LUA_MULTRET }).allowed(base + nargs),
        ({
            let i1 = call_of(base, nargs, LUA_MULTRET).resume_spec(Reply::Status(LUA_OK));
            let count = Invoke::counted(base, after as c_int);
            &&& i1.pending_spec() == Some(Op::GetTop)
            &&& 0 <= count <= c_int::MAX
            &&& i1.resume_spec(Reply::Depth(after as c_int)) == (Invoke::Returned {
                base,
                count: count as c_int,
            })
            &&& after == (base + nargs) - nargs - 1 + count
        }),
        last == after,
{
}

/// A call that raises gives no results but a structured error: the error
/// value replaces the callable and its arguments, the status is classified
/// with it, and it stays on the stack where the callable lay.
pub proof fn lemma_invoke_failed(
    base: c_int,
    nargs: c_int,
    nresults: c_int,
    code: c_int,
    text: Option<Vec<u8>>,
    d1: int,
    d2: int,
    d3: int,
    d4: int,
)
    requires
        code != LUA_OK,
        1 <= base,
        0 <= nargs,
        (Op::PCall { nargs, nresults }).effect(Reply::Status(code), base + nargs, d1),
        look().effect(Reply::Depth(d1 as c_int), d1, d2),
        stringify().effect(Reply::Text(text), d2, d3),
        pop_one().effect(Reply::Unit, d3, d4),
    ensures
        ({
            let i1 = call_of(base, nargs, nresults).resume_spec(Reply::Status(code));
            let i2 = i1.resume_spec(Reply::Depth(d1 as c_int));
            let i3 = i2.resume_spec(Reply::Text(text));
            let i4 = i3.resume_spec(Reply::Unit);
            &&& i1.pending_spec() == Some(look())
            &&& i2.pending_spec() == Some(stringify())
            &&& i3.pending_spec() == Some(pop_one())
            &&& ErrorKind::of_status(code as int) matches Some(kind)
            &&& i4 == (Invoke::Failed { kind, text })
        }),
        stringify().allowed(d2),
        pop_one().allowed(d3),
        d4 == base,
{
}

} // verus!
