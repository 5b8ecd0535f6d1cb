//! The calls of the invocation interface, and what comes back from them.
//!
//! The interface is a table of function pointers behind the virtual machine's
//! address. The embedder follows the address, takes the slot from the table
//! and calls it; this module names the slots and judges what the embedder
//! reports.

use vstd::prelude::*;
use jni_sys::jint;
use crate::errors::{Error, ErrorKind};

verus! {

/// A call through the function table, with the arguments that this crate
/// chooses. The attach calls are made without initialisation arguments.
#[derive(Debug, Clone, Copy, PartialEq, Eq)]
pub enum VmCall {
    /// Asks for the calling thread's environment, in the given version.
    GetEnv { version: jint },
    /// Attaches the calling thread.
    AttachCurrentThread,
    /// Attaches the calling thread as a daemon.
    AttachCurrentThreadAsDaemon,
    /// Detaches the calling thread.
    DetachCurrentThread,
}

/// What the embedder found when it made a call.
#[derive(Debug, Clone, Copy, PartialEq, Eq)]
pub enum VmReply {
    /// The address of the virtual machine was null.
    NullVm,
    /// The virtual machine's pointer to its function table was null.
    NullTable,
    /// The slot of the call was null.
    NullSlot,
    /// The call was made. `env` is the address that it stored in its
    /// environment argument, zero if it stored none or has no such argument.
    Returned { code: jint, env: usize },
}

impl VmCall {
    /// The name of the slot in the function table.
    pub open spec fn spec_name(self) -> &'static str {
        match self {
            VmCall::GetEnv { .. } => "GetEnv",
            VmCall::AttachCurrentThread => "AttachCurrentThread",
            VmCall::AttachCurrentThreadAsDaemon => "AttachCurrentThreadAsDaemon",
            VmCall::DetachCurrentThread => "DetachCurrentThread",
        }
    }

    /// The name of the slot in the function table.
    pub fn name(&self) -> (name: &'static str)
        ensures
            name == self.spec_name(),
    {
        match self {
            VmCall::GetEnv { .. } => "GetEnv",
            VmCall::AttachCurrentThread => "AttachCurrentThread",
            VmCall::AttachCurrentThreadAsDaemon => "AttachCurrentThreadAsDaemon",
            VmCall::DetachCurrentThread => "DetachCurrentThread",
        }
    }
}

/// The error that the way to a slot ended in, if it did: a null address, a
/// null table, or a null slot, which is reported under the call's name.
pub open spec fn lookup_error(call: VmCall, reply: VmReply) -> Option<Error> {
    match reply {
        VmReply::NullVm => Some(Error(ErrorKind::NullDeref("JavaVM"))),
        VmReply::NullTable => Some(Error(ErrorKind::NullDeref("*JavaVM"))),
        VmReply::NullSlot => Some(
            Error(ErrorKind::JavaVMMethodNotFound(call.spec_name())),
        ),
        VmReply::Returned { .. } => None,
    }
}

/// What a call returned, where it was made: its status code and the address
/// of the environment. Where it was not made, the error that says why.
pub open spec fn returned(call: VmCall, reply: VmReply) -> Result<(jint, usize), Error> {
    match reply {
        VmReply::Returned { code, env } => Ok((code, env)),
        _ => Err(lookup_error(call, reply).unwrap()),
    }
}

impl VmReply {
    /// Tells a call that was made from one that was not: hands out the status
    /// code and the environment's address of the first, and the error of the
    /// second. The status code is not judged here.
    pub fn returned(&self, call: &VmCall) -> (r: Result<(jint, usize), Error>)
        ensures
            r == returned(*call, *self),
    {
        match self {
            VmReply::NullVm => Err(Error(ErrorKind::NullDeref("JavaVM"))),
            VmReply::NullTable => Err(Error(ErrorKind::NullDeref("*JavaVM"))),
            VmReply::NullSlot => Err(Error(ErrorKind::JavaVMMethodNotFound(call.name()))),
            VmReply::Returned { code, env } => Ok((*code, *env)),
        }
    }
}

} // verus!
