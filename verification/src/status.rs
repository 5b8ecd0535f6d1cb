//! Status codes and version numbers of the invocation interface.
//!
//! The numbers are those of `jni-sys`. Executable code reads them from that
//! crate; contracts speak of them through the spec functions below.

use vstd::prelude::*;
use jni_sys::jint;

verus! {

/// The call succeeded.
pub open spec fn ok() -> int {
    0
}

/// The calling thread is not attached to the virtual machine.
pub open spec fn edetached() -> int {
    -2
}

/// The virtual machine does not support the version asked for.
pub open spec fn eversion() -> int {
    -3
}

/// The virtual machine ran out of memory.
pub open spec fn enomem() -> int {
    -4
}

/// A virtual machine exists already.
pub open spec fn eexist() -> int {
    -5
}

/// The arguments were not valid.
pub open spec fn einval() -> int {
    -6
}

/// Version 1.1 of the interface, the oldest one.
pub open spec fn version_1_1() -> jint {
    0x0001_0001
}

/// Reads `jni_sys::JNI_OK`, which that crate defines as 0.
#[verifier::external_body]
pub(crate) fn jni_ok() -> (code: jint)
    ensures
        code == ok(),
{
    jni_sys::JNI_OK
}

/// Reads `jni_sys::JNI_EDETACHED`, which that crate defines as -2.
#[verifier::external_body]
pub(crate) fn jni_edetached() -> (code: jint)
    ensures
        code == edetached(),
{
    jni_sys::JNI_EDETACHED
}

/// Reads `jni_sys::JNI_EVERSION`, which that crate defines as -3.
#[verifier::external_body]
pub(crate) fn jni_eversion() -> (code: jint)
    ensures
        code == eversion(),
{
    jni_sys::JNI_EVERSION
}

/// Reads `jni_sys::JNI_ENOMEM`, which that crate defines as -4.
#[verifier::external_body]
pub(crate) fn jni_enomem() -> (code: jint)
    ensures
        code == enomem(),
{
    jni_sys::JNI_ENOMEM
}

/// Reads `jni_sys::JNI_EEXIST`, which that crate defines as -5.
#[verifier::external_body]
pub(crate) fn jni_eexist() -> (code: jint)
    ensures
        code == eexist(),
{
    jni_sys::JNI_EEXIST
}

/// Reads `jni_sys::JNI_EINVAL`, which that crate defines as -6.
#[verifier::external_body]
pub(crate) fn jni_einval() -> (code: jint)
    ensures
        code == einval(),
{
    jni_sys::JNI_EINVAL
}

/// Reads `jni_sys::JNI_VERSION_1_1`, which that crate defines as 0x00010001.
#[verifier::external_body]
pub(crate) fn jni_version_1_1() -> (version: jint)
    ensures
        version == version_1_1(),
{
    jni_sys::JNI_VERSION_1_1
}

} // verus!
