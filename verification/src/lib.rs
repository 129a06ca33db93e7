//! The protocol of owning and calling into a stack-based, embeddable
//! scripting virtual machine, separated from the machine itself.
//!
//! Every operation here is a small state machine. It names the native call
//! to make next ([`native::Op`]), takes the machine's answer
//! ([`native::Reply`]) and, once no call is pending, gives its outcome. The
//! host that owns the machine makes the calls; nothing in this crate does.
//!
//! - [`abi`]: the numeric constants of the binary interface.
//! - [`native`]: the native calls, their answers, and their documented effect
//!   on the depth of the value stack.
//! - [`error`]: structured errors.
//! - [`classify`]: from a status code to a structured error.
//! - [`thread`]: the owner of a machine and its creation.
//! - [`call`]: callables, protected calls and their results.
//! - [`boundary`]: the allocator and the fatal-error hook.

pub mod abi;
pub mod boundary;
pub mod call;
pub mod classify;
pub mod error;
pub mod native;
pub mod thread;
