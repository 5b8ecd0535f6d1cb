//! The handle of a virtual machine, and the attachment of threads to it.
//!
//! Every operation here is one half of an exchange. The embedder makes the
//! call that the operation names and hands in the reply; the operation says
//! what follows from it: a result, or the next call.

use std::marker::PhantomData;
use std::rc::Rc;
use libloading::Library;
use vstd::prelude::*;
use jni_sys::jint;
use crate::env::JNIEnv;
use crate::errors::{jni_error_code_to_result, non_null, non_null_address};
use crate::errors::{status_kind, status_result};
use crate::errors::{Error, ErrorKind};
use crate::invoke::{lookup_error, returned, VmCall, VmReply};
use crate::status::{jni_version_1_1, ok, version_1_1};

verus! {

/// `libloading::Library`, a dynamic library that is loaded into the process
/// and stays loaded until the value is dropped. Nothing is read from it.
#[verifier::external_type_specification]
#[verifier::external_body]
pub struct ExLibrary(libloading::Library);

/// A virtual machine, by its address, together with the dynamic library that
/// its code lives in, where this handle owns that library. The address is
/// never null.
pub struct JavaVM {
    ptr: usize,
    library: Option<Library>,
}

/// A virtual machine that has just been created. The thread that created it
/// is still attached; the handle is handed out once that thread has been
/// detached.
pub struct Launch {
    vm: JavaVM,
}

/// What an attachment guard is: the virtual machine it belongs to, the
/// environment of the thread, and whether releasing it detaches the thread.
pub struct GuardView {
    /// The address of the virtual machine.
    pub vm: usize,
    /// The address of the thread's environment.
    pub env: usize,
    /// Whether the guard's own attach call registered the thread.
    pub requires_detach: bool,
}

/// The registration of the calling thread, held for a scope. It borrows the
/// virtual machine's handle, is not copied, and stays on its thread.
pub struct AttachGuard<'a> {
    java_vm: &'a JavaVM,
    env: JNIEnv<'a>,
    requires_detach: bool,
}

/// An attachment that is waiting for its attach call: the query found no
/// environment for the thread. It stays on the thread that made the query.
pub struct PendingAttach<'a> {
    java_vm: &'a JavaVM,
    thread: PhantomData<Rc<()>>,
}

/// Where an attachment stands after the query.
pub enum AttachStep<'a> {
    /// The thread was attached already; the guard will not detach it.
    Attached(AttachGuard<'a>),
    /// The thread has to be attached: make the pending call.
    Pending(PendingAttach<'a>),
}

/// The query that `get_env` and `attach_current_thread` start with: the
/// thread's environment, in the oldest version of the interface.
pub open spec fn env_query() -> VmCall {
    VmCall::GetEnv { version: version_1_1() }
}

/// The environment that a reply yields. A call that was not made yields the
/// lookup's error; one that was made yields the error of its status code, if
/// that is not success; a successful one that stored a null address yields
/// `NullPtr`; every other one yields the address it stored.
pub open spec fn reply_env(call: VmCall, reply: VmReply) -> Result<usize, Error> {
    match returned(call, reply) {
        Err(e) => Err(e),
        Ok((code, env)) => match status_result(code) {
            Err(e) => Err(e),
            Ok(_) => non_null_address(env, "from_raw ptr argument"),
        },
    }
}

/// What the reply to a guard's detach call comes to. A call that was not
/// made yields the lookup's error; one that was made yields what its status
/// code means: success for zero, and the error of every other status.
pub open spec fn detach_outcome(reply: VmReply) -> Result<(), Error> {
    match returned(VmCall::DetachCurrentThread, reply) {
        Err(e) => Err(e),
        Ok((code, _)) => status_result(code),
    }
}

/// What the reply to the detach call after a creation comes to. The machine
/// exists by then, so only a call that could not be made is an error; the
/// status that a call returned does not decide.
pub open spec fn launch_outcome(reply: VmReply) -> Result<(), Error> {
    match lookup_error(VmCall::DetachCurrentThread, reply) {
        Some(e) => Err(e),
        None => Ok(()),
    }
}

/// The guard that an attachment has after the query, if it has one by then:
/// where the query yields an environment, a guard with that environment that
/// does not detach. Where the query fails, there is none yet, and the attach
/// call is pending.
pub open spec fn guard_after_query(vm: usize, query: VmReply) -> Option<GuardView> {
    match reply_env(env_query(), query) {
        Ok(env) => Some(GuardView { vm, env, requires_detach: false }),
        Err(_) => None,
    }
}

/// The guard that a pending attachment has after its attach call: where the
/// call yields an environment, a guard with that environment that detaches.
/// Where it fails, its error.
pub open spec fn guard_after_attach(vm: usize, attach: VmReply) -> Result<GuardView, Error> {
    match reply_env(VmCall::AttachCurrentThread, attach) {
        Ok(env) => Ok(GuardView { vm, env, requires_detach: true }),
        Err(e) => Err(e),
    }
}

/// The call that releasing a guard makes, if it makes one.
pub open spec fn release_call(guard: GuardView) -> Option<VmCall> {
    if guard.requires_detach {
        Some(VmCall::DetachCurrentThread)
    } else {
        None
    }
}

fn env_of_reply<'a>(call: &VmCall, reply: &VmReply) -> (r: Result<JNIEnv<'a>, Error>)
    ensures
        match reply_env(*call, *reply) {
            Ok(address) => r matches Ok(env) && env@ == address,
            Err(e) => r matches Err(refused) && refused == e,
        },
{
    match reply.returned(call) {
        Err(e) => Err(e),
        Ok((code, env)) => match jni_error_code_to_result(code) {
            Err(e) => Err(e),
            Ok(_) => JNIEnv::from_raw(env),
        },
    }
}

/// Judges the reply to the detach call that the release of a guard made: an
/// error where the call could not be made, and else what its status code
/// means. A detach that the machine refused is the error of its status.
pub fn detach_result(reply: &VmReply) -> (r: Result<(), Error>)
    ensures
        r == detach_outcome(*reply),
{
    let call = VmCall::DetachCurrentThread;
    match reply.returned(&call) {
        Err(e) => Err(e),
        Ok((code, _)) => jni_error_code_to_result(code),
    }
}

impl JavaVM {
    #[verifier::type_invariant]
    spec fn non_null(&self) -> bool {
        self.ptr != 0
    }

    /// The address of the virtual machine.
    pub closed spec fn pointer(&self) -> usize {
        self.ptr
    }

    /// The dynamic library that the handle owns, if it owns one.
    pub closed spec fn library(&self) -> Option<Library> {
        self.library
    }

    /// Takes over a virtual machine that the embedder has just created from
    /// `library`: `code` is the status that the creation returned and `ptr`
    /// the address it stored. A status other than success is that status's
    /// error, and a null address is `NullPtr`; in both cases the library is
    /// dropped and no handle exists. Otherwise the creating thread is to be
    /// detached before the handle is used: see [`Launch`].
    pub fn new(code: jint, ptr: usize, library: Library) -> (r: Result<Launch, Error>)
        ensures
            code != ok() ==> (r matches Err(e) && e == Error(status_kind(code))),
            code == ok() && ptr == 0 ==> (r matches Err(e) && e == Error(
                ErrorKind::NullPtr("from_raw ptr argument"),
            )),
            code == ok() && ptr != 0 ==> (r matches Ok(launch) && launch.pointer() == ptr
                && launch.library() == Some(library)),
    {
        match jni_error_code_to_result(code) {
            Err(e) => Err(e),
            Ok(_) => match JavaVM::from_raw(ptr, Some(library)) {
                Err(e) => Err(e),
                Ok(vm) => Ok(Launch { vm }),
            },
        }
    }

    /// The handle of the virtual machine at the given address, which owns
    /// `library` if one is given. The null address is refused with `NullPtr`;
    /// every other address is taken as it is, and no call is made.
    pub fn from_raw(ptr: usize, library: Option<Library>) -> (r: Result<JavaVM, Error>)
        ensures
            ptr == 0 ==> (r matches Err(e) && e == Error(
                ErrorKind::NullPtr("from_raw ptr argument"),
            )),
            ptr != 0 ==> (r matches Ok(vm) && vm.pointer() == ptr && vm.library() == library),
    {
        match non_null(ptr, "from_raw ptr argument") {
            Err(e) => Err(e),
            Ok(address) => Ok(JavaVM { ptr: address, library }),
        }
    }

    /// The address of the virtual machine, for the embedder's calls. It is
    /// never null.
    pub fn get_java_vm_pointer(&self) -> (ptr: usize)
        ensures
            ptr == self.pointer(),
            ptr != 0,
    {
        proof {
            use_type_invariant(self);
        }
        self.ptr
    }

    /// The dynamic library that the handle owns, if it owns one.
    pub fn get_library(&self) -> (library: Option<&Library>)
        ensures
            match library {
                Some(owned) => self.library() == Some(*owned),
                None => self.library() is None,
            },
    {
        self.library.as_ref()
    }

    /// The query that `get_env` and `attach_current_thread` are answered
    /// with.
    pub fn env_query(&self) -> (call: VmCall)
        ensures
            call == env_query(),
    {
        VmCall::GetEnv { version: jni_version_1_1() }
    }

    /// The environment of the calling thread, from the reply to
    /// [`JavaVM::env_query`]. Nothing is attached: a thread that is not
    /// registered gets the error of the status that the query returned.
    pub fn get_env(&self, reply: &VmReply) -> (r: Result<JNIEnv<'_>, Error>)
        ensures
            match reply_env(env_query(), *reply) {
                Ok(address) => r matches Ok(env) && env@ == address,
                Err(e) => r matches Err(refused) && refused == e,
            },
    {
        let call = self.env_query();
        env_of_reply(&call, reply)
    }

    /// Attaches the calling thread for a scope, from the reply to
    /// [`JavaVM::env_query`]. Where the query yields an environment, the
    /// thread is attached already, and the guard will leave it so. Where the
    /// query fails, for whatever reason, the error is dropped and the thread
    /// is to be attached by the pending call.
    pub fn attach_current_thread(&self, query: &VmReply) -> (step: AttachStep<'_>)
        ensures
            match guard_after_query(self.pointer(), *query) {
                Some(view) => step matches AttachStep::Attached(guard) && guard@ == view,
                None => step matches AttachStep::Pending(pending) && pending.pointer()
                    == self.pointer(),
            },
    {
        match self.get_env(query) {
            Ok(env) => AttachStep::Attached(
                AttachGuard { java_vm: self, env, requires_detach: false },
            ),
            Err(_) => AttachStep::Pending(PendingAttach { java_vm: self, thread: PhantomData }),
        }
    }

    /// The call that attaches the calling thread as a daemon, which
    /// `attach_current_thread_as_daemon` is answered with.
    pub fn daemon_call(&self) -> (call: VmCall)
        ensures
            call == VmCall::AttachCurrentThreadAsDaemon,
    {
        VmCall::AttachCurrentThreadAsDaemon
    }

    /// The environment of the calling thread after it has been attached as a
    /// daemon, from the reply to [`JavaVM::daemon_call`]. There is no guard:
    /// nothing that this crate does detaches the thread again.
    pub fn attach_current_thread_as_daemon(&self, reply: &VmReply) -> (r: Result<
        JNIEnv<'_>,
        Error,
    >)
        ensures
            match reply_env(VmCall::AttachCurrentThreadAsDaemon, *reply) {
                Ok(address) => r matches Ok(env) && env@ == address,
                Err(e) => r matches Err(refused) && refused == e,
            },
    {
        let call = self.daemon_call();
        env_of_reply(&call, reply)
    }
}

impl Launch {
    /// The address of the virtual machine.
    pub closed spec fn pointer(&self) -> usize {
        self.vm.pointer()
    }

    /// The dynamic library that the virtual machine was created from.
    pub closed spec fn library(&self) -> Option<Library> {
        self.vm.library()
    }

    /// The address of the virtual machine, for the detach call. It is never
    /// null.
    pub fn get_java_vm_pointer(&self) -> (ptr: usize)
        ensures
            ptr == self.pointer(),
            ptr != 0,
    {
        self.vm.get_java_vm_pointer()
    }

    /// The call that detaches the creating thread.
    pub fn call(&self) -> (call: VmCall)
        ensures
            call == VmCall::DetachCurrentThread,
    {
        VmCall::DetachCurrentThread
    }

    /// Hands out the handle, from the reply to the detach call. Where the
    /// call could not be made, the error says why, and the handle is dropped
    /// with its library. Where it was made, the handle is handed out whatever
    /// status came back: the machine exists, and a thread that stayed
    /// attached is found attached by the next query.
    pub fn finish(self, reply: &VmReply) -> (r: Result<JavaVM, Error>)
        ensures
            match launch_outcome(*reply) {
                Err(e) => r matches Err(refused) && refused == e,
                Ok(_) => r matches Ok(vm) && vm.pointer() == self.pointer() && vm.library()
                    == self.library(),
            },
    {
        let call = VmCall::DetachCurrentThread;
        match reply.returned(&call) {
            Err(e) => Err(e),
            Ok(_) => Ok(self.vm),
        }
    }
}

impl<'a> PendingAttach<'a> {
    /// The address of the virtual machine.
    pub closed spec fn pointer(&self) -> usize {
        self.java_vm.pointer()
    }

    /// The handle of the virtual machine that the thread is to be attached
    /// to.
    pub fn java_vm(&self) -> (vm: &'a JavaVM)
        ensures
            vm.pointer() == self.pointer(),
    {
        self.java_vm
    }

    /// The call that attaches the thread.
    pub fn call(&self) -> (call: VmCall)
        ensures
            call == VmCall::AttachCurrentThread,
    {
        VmCall::AttachCurrentThread
    }

    /// The guard, from the reply to the attach call. The thread was attached
    /// by this call, so releasing the guard detaches it. Where the call
    /// failed, the thread is as it was and there is no guard.
    pub fn finish(self, reply: &VmReply) -> (r: Result<AttachGuard<'a>, Error>)
        ensures
            match guard_after_attach(self.pointer(), *reply) {
                Ok(view) => r matches Ok(guard) && guard@ == view,
                Err(e) => r matches Err(refused) && refused == e,
            },
    {
        let call = VmCall::AttachCurrentThread;
        match env_of_reply(&call, reply) {
            Ok(env) => Ok(AttachGuard { java_vm: self.java_vm, env, requires_detach: true }),
            Err(e) => Err(e),
        }
    }
}

impl<'a> View for AttachGuard<'a> {
    type V = GuardView;

    closed spec fn view(&self) -> GuardView {
        GuardView {
            vm: self.java_vm.pointer(),
            env: self.env@,
            requires_detach: self.requires_detach,
        }
    }
}

impl<'a> std::ops::Deref for AttachGuard<'a> {
    type Target = JNIEnv<'a>;

    /// The environment of the attached thread.
    fn deref(&self) -> (env: &JNIEnv<'a>)
        ensures
            env@ == self@.env,
    {
        &self.env
    }
}

impl<'a> AttachGuard<'a> {
    /// The handle of the virtual machine that the thread is attached to.
    pub fn java_vm(&self) -> (vm: &'a JavaVM)
        ensures
            vm.pointer() == self@.vm,
    {
        self.java_vm
    }

    /// Whether releasing the guard detaches the thread.
    pub fn requires_detach(&self) -> (b: bool)
        ensures
            b == self@.requires_detach,
    {
        self.requires_detach
    }

    /// Releases the guard at the end of its scope. A guard that attached the
    /// thread itself asks for the detach call; one that found the thread
    /// attached asks for nothing.
    pub fn detach(self) -> (call: Option<VmCall>)
        ensures
            call == release_call(self@),
    {
        if self.requires_detach {
            Some(VmCall::DetachCurrentThread)
        } else {
            None
        }
    }
}

} // verus!
