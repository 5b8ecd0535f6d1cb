//! The registration of a thread, as the virtual machine keeps it, and what
//! the rules of this crate come to when the machine answers as the
//! invocation interface says it does.
//!
//! Nothing here is assumed of a real machine: the model is the hypothesis of
//! each law below, and the laws say what the decisions in [`crate::vm`] then
//! lead to.

use vstd::prelude::*;
use jni_sys::jint;
use crate::errors::{Error, ErrorKind};
use crate::invoke::{VmCall, VmReply};
use crate::status::{edetached, eversion, ok, version_1_1};
use crate::vm::{detach_outcome, env_query, guard_after_attach, guard_after_query};
use crate::vm::{release_call, reply_env};
use crate::vm::GuardView;

verus! {

/// A virtual machine, as one native thread sees it.
pub struct Machine {
    /// The versions of the interface that the machine supports.
    pub versions: Set<jint>,
    /// The address of the thread's environment while the thread is attached,
    /// zero while it is not.
    pub env: usize,
}

impl Machine {
    /// Whether the thread is attached.
    pub open spec fn registered(self) -> bool {
        self.env != 0
    }

    /// Whether the machine supports the version that this crate queries in.
    pub open spec fn answers_queries(self) -> bool {
        self.versions.contains(version_1_1())
    }
}

/// Whether a machine in the state `before` may answer `call` with `reply` and
/// be in the state `after`, by the rules of the invocation interface.
///
/// The function table of a machine is complete, so every call is made. A
/// query changes nothing: it reports a thread that is not attached, then a
/// version that is not supported, and else hands out the thread's
/// environment. An attach call that succeeds leaves the thread attached and
/// hands out its environment, and is a no-op on a thread that is attached
/// already. A detach call that succeeds leaves the thread detached. A call
/// that fails changes nothing.
pub open spec fn answers(before: Machine, call: VmCall, reply: VmReply, after: Machine) -> bool {
    &&& after.versions == before.versions
    &&& reply matches VmReply::Returned { code, env }
    &&& match call {
        VmCall::GetEnv { version } => {
            &&& after == before
            &&& if !before.registered() {
                code == edetached() && env == 0
            } else if !before.versions.contains(version) {
                code == eversion() && env == 0
            } else {
                code == ok() && env == before.env
            }
        },
        VmCall::AttachCurrentThread | VmCall::AttachCurrentThreadAsDaemon => {
            if code == ok() {
                &&& after.registered()
                &&& env == after.env
                &&& before.registered() ==> after == before
            } else {
                after == before
            }
        },
        VmCall::DetachCurrentThread => {
            if code == ok() {
                !after.registered()
            } else {
                after == before
            }
        },
    }
}

/// Whether the machine carried out the detach call that `reply` answers.
pub open spec fn detached(reply: VmReply) -> bool {
    reply matches VmReply::Returned { code, .. } && code == ok()
}

/// Whether releasing `guard` takes a machine from `before` to `after`, with
/// `detach` as the reply to the call that the release makes, if it makes
/// one. A release that makes no call leaves the machine as it is.
pub open spec fn releases(guard: GuardView, before: Machine, detach: VmReply, after: Machine) -> bool {
    match release_call(guard) {
        Some(call) => answers(before, call, detach, after),
        None => after == before,
    }
}

/// Whether a scoped attachment, from the query to the release of its guard,
/// takes a machine from `start` to `end`: the query is answered with `query`
/// and leaves the machine in `queried`; where no guard comes of it, the
/// attach call is answered with `attach` and leaves the machine in
/// `attached`; the guard, where there is one, is released at once. Where the
/// attach call fails there is no guard, and nothing more happens.
pub open spec fn scoped_attach(
    vm: usize,
    start: Machine,
    query: VmReply,
    queried: Machine,
    attach: VmReply,
    attached: Machine,
    detach: VmReply,
    end: Machine,
) -> bool {
    &&& answers(start, env_query(), query, queried)
    &&& match guard_after_query(vm, query) {
        Some(guard) => releases(guard, queried, detach, end),
        None => {
            &&& answers(queried, VmCall::AttachCurrentThread, attach, attached)
            &&& match guard_after_attach(vm, attach) {
                Ok(guard) => releases(guard, attached, detach, end),
                Err(_) => end == attached,
            }
        },
    }
}

/// A thread that is not attached is told so by the query: `get_env` fails
/// with `ThreadDetached`, and the thread is as it was.
pub proof fn lemma_query_of_detached_thread(before: Machine, query: VmReply, after: Machine)
    requires
        !before.registered(),
        answers(before, env_query(), query, after),
    ensures
        reply_env(env_query(), query) == Err::<usize, Error>(Error(ErrorKind::ThreadDetached)),
        after == before,
{
}

/// A thread that is attached gets its environment from the query, as often
/// as it asks: `get_env` succeeds with the address that the machine keeps,
/// and the thread is as it was.
pub proof fn lemma_query_of_attached_thread(before: Machine, query: VmReply, after: Machine)
    requires
        before.registered(),
        before.answers_queries(),
        answers(before, env_query(), query, after),
    ensures
        reply_env(env_query(), query) == Ok::<usize, Error>(before.env),
        after == before,
{
}

/// After a scoped attach call has succeeded, the query succeeds on the same
/// thread, and hands out the environment that the attach call handed out.
pub proof fn lemma_query_after_attach(
    vm: usize,
    before: Machine,
    attach: VmReply,
    attached: Machine,
    query: VmReply,
    after: Machine,
)
    requires
        before.answers_queries(),
        answers(before, VmCall::AttachCurrentThread, attach, attached),
        guard_after_attach(vm, attach) is Ok,
        answers(attached, env_query(), query, after),
    ensures
        reply_env(env_query(), query) == Ok::<usize, Error>(guard_after_attach(vm, attach)->Ok_0.env),
        after == attached,
        attached.registered(),
{
}

/// The release of a guard reports what became of its detach call: success
/// exactly where the machine carried the call out, which leaves the thread
/// detached; an error where the machine refused, which leaves the thread as
/// it was.
pub proof fn lemma_release_reports_the_detach(before: Machine, detach: VmReply, after: Machine)
    requires
        answers(before, VmCall::DetachCurrentThread, detach, after),
    ensures
        detach_outcome(detach) is Ok <==> detached(detach),
        detach_outcome(detach) is Ok ==> !after.registered(),
        detach_outcome(detach) is Err ==> after == before,
{
}

/// Round trip: a scoped attachment of a thread that is not attached leaves
/// it not attached. The attach call is made; where it succeeds, the guard
/// detaches on release, and where it fails, the thread was never attached.
/// The machine is taken to carry out the detach call.
pub proof fn lemma_scoped_attach_of_detached_thread(
    vm: usize,
    start: Machine,
    query: VmReply,
    queried: Machine,
    attach: VmReply,
    attached: Machine,
    detach: VmReply,
    end: Machine,
)
    requires
        !start.registered(),
        scoped_attach(vm, start, query, queried, attach, attached, detach, end),
        detached(detach),
    ensures
        guard_after_query(vm, query) is None,
        guard_after_attach(vm, attach) matches Ok(guard) ==> release_call(guard) == Some(
            VmCall::DetachCurrentThread,
        ),
        detach_outcome(detach) == Ok::<(), Error>(()),
        !end.registered(),
{
}

/// A scoped attachment of a thread that is attached already leaves it
/// attached: the query yields the guard, the guard does not detach, its
/// release makes no call, and the machine is as it was.
pub proof fn lemma_scoped_attach_of_attached_thread(
    vm: usize,
    start: Machine,
    query: VmReply,
    queried: Machine,
    attach: VmReply,
    attached: Machine,
    detach: VmReply,
    end: Machine,
)
    requires
        start.registered(),
        start.answers_queries(),
        scoped_attach(vm, start, query, queried, attach, attached, detach, end),
    ensures
        guard_after_query(vm, query) == Some(
            GuardView { vm, env: start.env, requires_detach: false },
        ),
        release_call(guard_after_query(vm, query)->Some_0) is None,
        end == start,
{
}

/// A thread that was attached as a daemon stays attached: the attach call
/// hands out the environment that the machine keeps, nothing is released
/// when the environment goes out of scope, and a scoped attachment of the
/// thread afterwards leaves the machine as the daemon attach left it.
pub proof fn lemma_daemon_attach_stays(
    vm: usize,
    before: Machine,
    daemon: VmReply,
    attached: Machine,
    query: VmReply,
    queried: Machine,
    attach: VmReply,
    reattached: Machine,
    detach: VmReply,
    end: Machine,
)
    requires
        before.answers_queries(),
        answers(before, VmCall::AttachCurrentThreadAsDaemon, daemon, attached),
        reply_env(VmCall::AttachCurrentThreadAsDaemon, daemon) is Ok,
        scoped_attach(vm, attached, query, queried, attach, reattached, detach, end),
    ensures
        attached.registered(),
        reply_env(VmCall::AttachCurrentThreadAsDaemon, daemon) == Ok::<usize, Error>(attached.env),
        end == attached,
{
    lemma_scoped_attach_of_attached_thread(
        vm,
        attached,
        query,
        queried,
        attach,
        reattached,
        detach,
        end,
    );
}

} // verus!
