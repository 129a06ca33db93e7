//! Numeric constants of the virtual machine's binary interface and the index
//! arithmetic built on them.
//!
//! The values are fixed by the machine's published protocol; they are not
//! choices of this crate.

use vstd::prelude::*;
use libc::c_int;

verus! {

/// Result arity that asks a call for every value the callee returns.
pub const LUA_MULTRET: c_int = -1;

/// Deepest stack the virtual machine grows to.
pub const LUAI_MAXSTACK: c_int = 1_000_000;

/// Pseudo-index of the registry table.
pub const LUA_REGISTRYINDEX: c_int = -1_001_000;

/// Slots that are free on entry to every host function.
pub const LUA_MINSTACK: c_int = 20;

/// Registry key of the main thread.
pub const LUA_RIDX_MAINTHREAD: i64 = 1;

/// Registry key of the table of globals.
pub const LUA_RIDX_GLOBALS: i64 = 2;

/// Last registry key the machine reserves.
pub const LUA_RIDX_LAST: i64 = 2;

/// Status of success.
pub const LUA_OK: c_int = 0;

/// Status of a coroutine that yielded.
pub const LUA_YIELD: c_int = 1;

/// Status of an error raised while running.
pub const LUA_ERRRUN: c_int = 2;

/// Status of a chunk that did not compile.
pub const LUA_ERRSYNTAX: c_int = 3;

/// Status of a failed allocation.
pub const LUA_ERRMEM: c_int = 4;

/// Status of an error raised by a finalizer.
pub const LUA_ERRGCMM: c_int = 5;

/// Status of an error raised by the message handler.
pub const LUA_ERRERR: c_int = 6;

/// Status of a loader that could not read its file.
pub const LUA_ERRFILE: c_int = 7;

/// Type tag of an index that holds no value.
pub const LUA_TNONE: c_int = -1;

/// Type tag of nil.
pub const LUA_TNIL: c_int = 0;

/// Type tag of a boolean.
pub const LUA_TBOOLEAN: c_int = 1;

/// Type tag of a bare host pointer.
pub const LUA_TLIGHTUSERDATA: c_int = 2;

/// Type tag of a number, integer or float.
pub const LUA_TNUMBER: c_int = 3;

/// Type tag of a string.
pub const LUA_TSTRING: c_int = 4;

/// Type tag of a table.
pub const LUA_TTABLE: c_int = 5;

/// Type tag of a function.
pub const LUA_TFUNCTION: c_int = 6;

/// Type tag of a block of host memory the machine manages.
pub const LUA_TUSERDATA: c_int = 7;

/// Type tag of a coroutine.
pub const LUA_TTHREAD: c_int = 8;

/// Number of type tags that name a value.
pub const LUA_NUMTAGS: c_int = 9;

/// Whether `tag` is one of the type tags the machine reports for a slot:
/// "no value" or one of the value types.
pub open spec fn is_type_tag(tag: int) -> bool {
    LUA_TNONE <= tag < LUA_NUMTAGS
}

/// The integer the machine's interface writes a truth value as.
pub open spec fn truth(b: bool) -> int {
    if b { 1 } else { 0 }
}

/// Whether a slot with the type tag `tag` holds a boolean, as one or zero.
pub fn lua_isboolean(tag: c_int) -> (r: c_int)
    ensures
        r == truth(tag == LUA_TBOOLEAN),
{
    if tag == LUA_TBOOLEAN { 1 } else { 0 }
}

/// Whether a slot with the type tag `tag` holds a function, as one or zero.
pub fn lua_isfunction(tag: c_int) -> (r: c_int)
    ensures
        r == truth(tag == LUA_TFUNCTION),
{
    if tag == LUA_TFUNCTION { 1 } else { 0 }
}

/// Whether a slot with the type tag `tag` holds a bare host pointer, as one or zero.
pub fn lua_islightuserdata(tag: c_int) -> (r: c_int)
    ensures
        r == truth(tag == LUA_TLIGHTUSERDATA),
{
    if tag == LUA_TLIGHTUSERDATA { 1 } else { 0 }
}

/// Whether a slot with the type tag `tag` holds nil, as one or zero.
pub fn lua_isnil(tag: c_int) -> (r: c_int)
    ensures
        r == truth(tag == LUA_TNIL),
{
    if tag == LUA_TNIL { 1 } else { 0 }
}

/// Whether a slot with the type tag `tag` holds no value, as one or zero.
pub fn lua_isnone(tag: c_int) -> (r: c_int)
    ensures
        r == truth(tag == LUA_TNONE),
{
    if tag == LUA_TNONE { 1 } else { 0 }
}

/// Whether a slot with the type tag `tag` holds no value or nil, as one or zero.
pub fn lua_isnoneornil(tag: c_int) -> (r: c_int)
    ensures
        r == truth(tag <= 0),
{
    if tag <= 0 { 1 } else { 0 }
}

/// Whether a slot with the type tag `tag` holds a table, as one or zero.
pub fn lua_istable(tag: c_int) -> (r: c_int)
    ensures
        r == truth(tag == LUA_TTABLE),
{
    if tag == LUA_TTABLE { 1 } else { 0 }
}

/// Whether a slot with the type tag `tag` holds a coroutine, as one or zero.
pub fn lua_isthread(tag: c_int) -> (r: c_int)
    ensures
        r == truth(tag == LUA_TTHREAD),
{
    if tag == LUA_TTHREAD { 1 } else { 0 }
}

/// Pseudo-index of the `i`-th upvalue of the running function.
pub fn lua_upvalueindex(i: c_int) -> (index: c_int)
    requires
        LUA_REGISTRYINDEX - i >= c_int::MIN,
    ensures
        index == LUA_REGISTRYINDEX - i,
{
    LUA_REGISTRYINDEX - i
}

} // verus!
