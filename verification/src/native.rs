//! The native entry points the protocol asks for, the answers it takes back,
//! and the documented effect of each on the depth of the value stack.
//!
//! Nothing here touches a virtual machine. A host performs each [`Op`] on the
//! machine it owns and hands the machine's answer back as a [`Reply`].

use vstd::prelude::*;
use libc::c_int;
use crate::abi::{
    LUAI_MAXSTACK, LUA_MULTRET, LUA_OK, LUA_REGISTRYINDEX, LUA_RIDX_GLOBALS,
};

verus! {

/// The state of one virtual machine, as far as this crate knows it. The
/// state itself lies with the machine and is never looked into; what is
/// held here is the version number the machine reports.
#[allow(non_camel_case_types)]
#[derive(Debug, Clone, Copy, PartialEq, Eq, Structural)]
pub struct lua_State {
    pub version: u32,
}

/// How the bytes of a chunk may be encoded.
#[derive(Debug, Clone, Copy, PartialEq, Eq, Structural)]
pub enum LoadingMode {
    Binary,
    Text,
    Auto,
}

/// One call of a native entry point, with the arguments the protocol chose.
#[derive(Debug, Clone, Copy, PartialEq, Eq, Structural)]
pub enum Op {
    /// Create a machine, with the host's default allocator or the caller's.
    NewState { default_allocator: bool },
    /// Install the fatal-error hook.
    AtPanic,
    /// Read the machine's version number.
    Version,
    /// Destroy the machine.
    Close,
    /// Read the depth of the stack.
    GetTop,
    /// Set the depth of the stack; a negative index counts from the top.
    SetTop { index: c_int },
    /// Convert a slot to text, which is pushed and also handed back.
    ToLString { index: c_int },
    /// Push the host function that runs the machine's version check.
    PushVersionCheck,
    /// Push the byte string the operation was started for.
    PushLString,
    /// Push the entry of the table at `index` under the integer key `n`.
    RawGetI { index: c_int, n: i64 },
    /// Replace the key on top by the entry of the table at `index` under it.
    RawGet { index: c_int },
    /// Copy the slot at `from` over the slot at `to`.
    Copy { from: c_int, to: c_int },
    /// Compile the buffer the operation was started for.
    LoadBuffer { mode: LoadingMode },
    /// Call the function under `nargs` arguments in protected mode, with no
    /// message handler.
    PCall { nargs: c_int, nresults: c_int },
}

/// What a native entry point answered.
#[derive(Debug)]
pub enum Reply {
    /// The entry point returns nothing.
    Unit,
    /// Whether the machine was created.
    Created(bool),
    /// The machine's version number.
    Number(u32),
    /// A status code.
    Status(c_int),
    /// A type tag.
    Tag(c_int),
    /// A stack depth.
    Depth(c_int),
    /// The bytes of a text, or nothing where the machine gave none.
    Text(Option<Vec<u8>>),
}

impl LoadingMode {
    /// The mode tag the loader is given.
    pub open spec fn tag_spec(self) -> Seq<char> {
        match self {
            LoadingMode::Binary => "b"@,
            LoadingMode::Text => "t"@,
            LoadingMode::Auto => "bt"@,
        }
    }

    /// The mode tag the loader is given: `b` for binary chunks only, `t` for
    /// text only, `bt` for either.
    pub fn tag(self) -> (s: &'static str)
        ensures
            s@ == self.tag_spec(),
    {
        match self {
            LoadingMode::Binary => "b",
            LoadingMode::Text => "t",
            LoadingMode::Auto => "bt",
        }
    }
}

impl Op {
    /// Whether `reply` is the kind of answer this entry point gives.
    pub open spec fn answered_by_spec(self, reply: Reply) -> bool {
        match self {
            Op::NewState { .. } => reply is Created,
            Op::Version => reply is Number,
            Op::GetTop => reply is Depth,
            Op::RawGetI { .. } | Op::RawGet { .. } => reply is Tag,
            Op::ToLString { .. } => reply is Text,
            Op::LoadBuffer { .. } | Op::PCall { .. } => reply is Status,
            Op::AtPanic | Op::Close | Op::SetTop { .. } | Op::PushVersionCheck | Op::PushLString
            | Op::Copy { .. } => reply is Unit,
        }
    }

    /// Whether `reply` is the kind of answer this entry point gives.
    pub fn answered_by(&self, reply: &Reply) -> (b: bool)
        ensures
            b == self.answered_by_spec(*reply),
    {
        match self {
            Op::NewState { .. } => matches!(reply, Reply::Created(_)),
            Op::Version => matches!(reply, Reply::Number(_)),
            Op::GetTop => matches!(reply, Reply::Depth(_)),
            Op::RawGetI { .. } | Op::RawGet { .. } => matches!(reply, Reply::Tag(_)),
            Op::ToLString { .. } => matches!(reply, Reply::Text(_)),
            Op::LoadBuffer { .. } | Op::PCall { .. } => matches!(reply, Reply::Status(_)),
            Op::AtPanic | Op::Close | Op::SetTop { .. } | Op::PushVersionCheck | Op::PushLString
            | Op::Copy { .. } => matches!(reply, Reply::Unit),
        }
    }

    /// Whether `index` names a slot of a stack of depth `depth`, counted from
    /// the bottom when positive and from the top when negative.
    pub open spec fn names_slot(index: int, depth: int) -> bool {
        1 <= index <= depth || -depth <= index <= -1
    }

    /// Whether `index` names a slot of the stack or the registry.
    pub open spec fn names_value(index: int, depth: int) -> bool {
        Self::names_slot(index, depth) || index == LUA_REGISTRYINDEX
    }

    /// Whether the entry point may be called on a stack of depth `before`:
    /// the slots it reads exist and the values it pushes fit.
    pub open spec fn allowed(self, before: int) -> bool {
        &&& 0 <= before <= LUAI_MAXSTACK
        &&& match self {
            Op::NewState { .. } | Op::AtPanic | Op::Version | Op::Close | Op::GetTop => true,
            Op::SetTop { index } => 0 <= index <= LUAI_MAXSTACK || -(before + 1) <= index <= -1,
            Op::ToLString { index } => Self::names_slot(index as int, before) && before
                < LUAI_MAXSTACK,
            Op::PushVersionCheck | Op::PushLString | Op::LoadBuffer { .. } => before
                < LUAI_MAXSTACK,
            Op::RawGetI { index, .. } => Self::names_value(index as int, before) && before
                < LUAI_MAXSTACK,
            Op::RawGet { index } => before >= 1 && Self::names_value(index as int, before),
            Op::Copy { from, to } => Self::names_value(from as int, before) && Self::names_value(
                to as int,
                before,
            ),
            Op::PCall { nargs, nresults } => {
                &&& 0 <= nargs < before
                &&& nresults == LUA_MULTRET || (0 <= nresults && before - nargs - 1 + nresults
                    <= LUAI_MAXSTACK)
            },
        }
    }

    /// The documented effect of the entry point on the stack: whether a call
    /// on a stack of depth `before` that answers `reply` can leave a stack of
    /// depth `after`.
    pub open spec fn effect(self, reply: Reply, before: int, after: int) -> bool {
        &&& self.answered_by_spec(reply)
        &&& 0 <= after <= LUAI_MAXSTACK
        &&& match self {
            Op::NewState { .. } | Op::AtPanic | Op::Version | Op::Close | Op::Copy { .. }
            | Op::RawGet { .. } => after == before,
            Op::GetTop => after == before && reply == Reply::Depth(before as c_int),
            Op::SetTop { index } => after == if index >= 0 {
                index as int
            } else {
                before + 1 + index
            },
            Op::ToLString { .. } | Op::PushVersionCheck | Op::PushLString | Op::RawGetI { .. }
            | Op::LoadBuffer { .. } => after == before + 1,
            Op::PCall { nargs, nresults } => if reply != Reply::Status(LUA_OK) {
                after == before - nargs
            } else if nresults == LUA_MULTRET {
                after >= before - nargs - 1
            } else {
                after == before - nargs - 1 + nresults
            },
        }
    }

    /// Whether the effect of the call on the depth of the stack can be told
    /// from its answer: the call is allowed, the answer is of its kind and
    /// agrees with the depth before, and the call is not one that returned as
    /// many results as the callee chose.
    pub open spec fn settles(self, reply: Reply, before: int) -> bool {
        &&& self.allowed(before)
        &&& self.answered_by_spec(reply)
        &&& self is GetTop ==> reply == Reply::Depth(before as c_int)
        &&& self matches Op::PCall { nresults, .. } ==> !(reply == Reply::Status(LUA_OK)
            && nresults == LUA_MULTRET)
    }

    /// The depth of the stack after the call, where the answer settles it.
    pub fn depth_after(&self, reply: &Reply, before: c_int) -> (after: Option<c_int>)
        ensures
            after is Some <==> self.settles(*reply, before as int),
            after matches Some(a) ==> self.effect(*reply, before as int, a as int),
            after matches Some(a) ==> forall|x: int|
                self.effect(*reply, before as int, x) ==> x == a,
    {
        if before < 0 || before > LUAI_MAXSTACK || !self.answered_by(reply) {
            return None;
        }
        match self {
            Op::NewState { .. } | Op::AtPanic | Op::Version | Op::Close => Some(before),
            Op::GetTop => match reply {
                Reply::Depth(d) => if *d == before {
                    Some(before)
                } else {
                    None
                },
                _ => None,
            },
            Op::SetTop { index } => if 0 <= *index && *index <= LUAI_MAXSTACK {
                Some(*index)
            } else if -(before + 1) <= *index && *index <= -1 {
                Some(before + 1 + *index)
            } else {
                None
            },
            Op::ToLString { index } => if before < LUAI_MAXSTACK && Self::slot(*index, before) {
                Some(before + 1)
            } else {
                None
            },
            Op::PushVersionCheck | Op::PushLString | Op::LoadBuffer { .. } => if before
                < LUAI_MAXSTACK {
                Some(before + 1)
            } else {
                None
            },
            Op::RawGetI { index, .. } => if before < LUAI_MAXSTACK && Self::value(*index, before) {
                Some(before + 1)
            } else {
                None
            },
            Op::RawGet { index } => if before >= 1 && Self::value(*index, before) {
                Some(before)
            } else {
                None
            },
            Op::Copy { from, to } => if Self::value(*from, before) && Self::value(*to, before) {
                Some(before)
            } else {
                None
            },
            Op::PCall { nargs, nresults } => {
                if *nargs < 0 || *nargs >= before {
                    return None;
                }
                let ok = matches!(reply, Reply::Status(0));
                if *nresults == LUA_MULTRET {
                    if ok {
                        None
                    } else {
                        Some(before - *nargs)
                    }
                } else if *nresults < 0 || *nresults > LUAI_MAXSTACK - (before - *nargs - 1) {
                    None
                } else if ok {
                    Some(before - *nargs - 1 + *nresults)
                } else {
                    Some(before - *nargs)
                }
            },
        }
    }

    fn slot(index: c_int, depth: c_int) -> (b: bool)
        requires
            0 <= depth <= LUAI_MAXSTACK,
        ensures
            b == Self::names_slot(index as int, depth as int),
    {
        (1 <= index && index <= depth) || (-depth <= index && index <= -1)
    }

    fn value(index: c_int, depth: c_int) -> (b: bool)
        requires
            0 <= depth <= LUAI_MAXSTACK,
        ensures
            b == Self::names_value(index as int, depth as int),
    {
        Self::slot(index, depth) || index == LUA_REGISTRYINDEX
    }
}

/// The pop of the `n` topmost values.
pub fn lua_pop(n: c_int) -> (op: Op)
    ensures
        op == (Op::SetTop { index: (-n - 1) as c_int }),
        c_int::MIN <= -n - 1 <= c_int::MAX,
{
    Op::SetTop { index: -1 - n }
}

/// The move of the top value into the slot at `index`: the copy, then the
/// pop of the value copied.
pub fn lua_replace(index: c_int) -> (ops: (Op, Op))
    ensures
        ops.0 == (Op::Copy { from: -1 as c_int, to: index }),
        ops.1 == (Op::SetTop { index: -2 as c_int }),
{
    (Op::Copy { from: -1, to: index }, lua_pop(1))
}

/// The push of the table of globals, which the registry holds.
pub fn lua_pushglobaltable() -> (op: Op)
    ensures
        op == (Op::RawGetI { index: LUA_REGISTRYINDEX, n: LUA_RIDX_GLOBALS }),
{
    Op::RawGetI { index: LUA_REGISTRYINDEX, n: LUA_RIDX_GLOBALS }
}

} // verus!
