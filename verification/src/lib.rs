//! Registration of native threads with a Java virtual machine.
//!
//! A native thread has to be attached to the virtual machine before it may
//! call into it. This crate holds the rules of that registration: how a
//! status code of the invocation interface becomes an error, when a handle may
//! be built from an address, and which calls an attach, a query and a release
//! make, in which order, on which replies.
//!
//! The calls themselves go through a table of function pointers and cannot be
//! made from here. The embedder makes each [`invoke::VmCall`] that the crate
//! asks for and hands back the [`invoke::VmReply`]; every decision in between
//! is taken here, and proved.

pub mod status;
pub mod errors;
pub mod invoke;
pub mod env;
pub mod vm;
pub mod registration;
