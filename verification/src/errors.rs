//! The errors of this crate, and the error that each status code stands for.

use vstd::prelude::*;
use jni_sys::jint;
use crate::status::{ok, edetached, eversion, enomem, eexist, einval};
use crate::status::{jni_ok, jni_edetached, jni_eversion, jni_enomem, jni_eexist, jni_einval};

verus! {

/// What went wrong. A kind carries names and numbers for a report, never a
/// live handle.
#[derive(Debug, PartialEq, Eq)]
pub enum ErrorKind {
    /// A tagged value was read as one variant, named first, while it held
    /// another, named second.
    WrongValueType(&'static str, &'static str),
    /// A constructor was declared with a return type other than void.
    InvalidCtorReturn,
    /// The number of arguments does not match the method's signature.
    InvalidArgList,
    /// No method of this name and signature was found.
    MethodNotFound(String, String),
    /// No field of this name and type was found.
    FieldNotFound(String, String),
    /// A call returned while an exception was pending.
    JavaException,
    /// The named slot of the environment's function table is null.
    JNIEnvMethodNotFound(&'static str),
    /// A pointer that was handed in was null; the text says where.
    NullPtr(&'static str),
    /// A pointer that was to be followed was null; the text says where.
    NullDeref(&'static str),
    /// An exclusive resource was held already when it was asked for.
    TryLock,
    /// The named slot of the virtual machine's function table is null.
    JavaVMMethodNotFound(&'static str),
    /// The calling thread is not attached to the virtual machine.
    ThreadDetached,
    /// The virtual machine does not support the version asked for.
    InvalidVersion,
    /// The virtual machine ran out of memory.
    NotEnoughMemory,
    /// A virtual machine exists already.
    AlreadyCreated,
    /// The arguments handed to the virtual machine were not valid.
    InvalidArguments,
    /// Any other status code, kept as it came.
    Other(jint),
}

/// An error of this crate: its kind.
#[derive(Debug, PartialEq, Eq)]
pub struct Error(pub ErrorKind);

impl Error {
    /// The error of the given kind.
    pub fn from_kind(kind: ErrorKind) -> (e: Error)
        ensures
            e == Error(kind),
    {
        Error(kind)
    }

    /// The kind of this error.
    pub fn kind(&self) -> (k: &ErrorKind)
        ensures
            *k == self.0,
    {
        &self.0
    }
}

impl From<ErrorKind> for Error {
    fn from(kind: ErrorKind) -> (e: Error) {
        Error(kind)
    }
}

impl vstd::std_specs::convert::FromSpecImpl<ErrorKind> for Error {
    open spec fn obeys_from_spec() -> bool {
        true
    }

    open spec fn from_spec(kind: ErrorKind) -> Error {
        Error(kind)
    }
}

/// `std::sync::TryLockError`, what `try_lock` returns when the lock is held
/// or poisoned. Nothing is read from it.
#[verifier::external_type_specification]
#[verifier::external_body]
#[verifier::reject_recursive_types(T)]
pub struct ExTryLockError<T>(std::sync::TryLockError<T>);

impl<T> From<std::sync::TryLockError<T>> for Error {
    /// A lock that could not be taken at once is reported as `TryLock`,
    /// whatever the reason.
    fn from(_refused: std::sync::TryLockError<T>) -> (e: Error) {
        Error(ErrorKind::TryLock)
    }
}

impl<T> vstd::std_specs::convert::FromSpecImpl<std::sync::TryLockError<T>> for Error {
    open spec fn obeys_from_spec() -> bool {
        true
    }

    open spec fn from_spec(_refused: std::sync::TryLockError<T>) -> Error {
        Error(ErrorKind::TryLock)
    }
}

/// What a check for null makes of an address: the null address is `NullPtr`
/// with the place where it was found, every other address is itself.
pub open spec fn non_null_address(ptr: usize, context: &'static str) -> Result<usize, Error> {
    if ptr == 0 {
        Err(Error(ErrorKind::NullPtr(context)))
    } else {
        Ok(ptr)
    }
}

/// Refuses the null address with `NullPtr`, naming `context` as the place
/// where it was found, and hands every other address back.
pub fn non_null(ptr: usize, context: &'static str) -> (r: Result<usize, Error>)
    ensures
        r == non_null_address(ptr, context),
{
    if ptr == 0 {
        Err(Error(ErrorKind::NullPtr(context)))
    } else {
        Ok(ptr)
    }
}

/// The kind that stands for a status code other than success.
pub open spec fn status_kind(code: jint) -> ErrorKind {
    if code == edetached() {
        ErrorKind::ThreadDetached
    } else if code == eversion() {
        ErrorKind::InvalidVersion
    } else if code == enomem() {
        ErrorKind::NotEnoughMemory
    } else if code == eexist() {
        ErrorKind::AlreadyCreated
    } else if code == einval() {
        ErrorKind::InvalidArguments
    } else {
        ErrorKind::Other(code)
    }
}

/// What a status code means: success, or the error that stands for it.
pub open spec fn status_result(code: jint) -> Result<(), Error> {
    if code == ok() {
        Ok(())
    } else {
        Err(Error(status_kind(code)))
    }
}

/// Judges a status code of the invocation interface. Zero is success;
/// each of the five codes that the interface names has a kind of its own;
/// every other code comes back inside `Other`, unchanged.
pub fn jni_error_code_to_result(code: jint) -> (r: Result<(), Error>)
    ensures
        r == status_result(code),
{
    if code == jni_ok() {
        Ok(())
    } else if code == jni_edetached() {
        Err(Error(ErrorKind::ThreadDetached))
    } else if code == jni_eversion() {
        Err(Error(ErrorKind::InvalidVersion))
    } else if code == jni_enomem() {
        Err(Error(ErrorKind::NotEnoughMemory))
    } else if code == jni_eexist() {
        Err(Error(ErrorKind::AlreadyCreated))
    } else if code == jni_einval() {
        Err(Error(ErrorKind::InvalidArguments))
    } else {
        Err(Error(ErrorKind::Other(code)))
    }
}

/// A pending exception of the virtual machine, described: the name of its
/// class and its message. It is made on demand and has no identity beyond
/// the two.
#[derive(Debug, PartialEq, Eq)]
pub struct Exception {
    pub class: String,
    pub msg: String,
}

/// What can be described as an exception.
pub trait ToException {
    /// The description of `self` as an exception.
    fn to_exception(&self) -> Exception;
}

} // verus!
