use jni_vm::env::JNIEnv;
use jni_vm::errors::{Error, ErrorKind};
use jni_vm::invoke::{VmCall, VmReply};
use jni_vm::vm::{detach_result, JavaVM};

fn shared<T: Send + Sync>() {}

fn this_process() -> libloading::Library {
    libloading::Library::from(libloading::os::unix::Library::this())
}

fn refusal<T>(r: Result<T, Error>) -> ErrorKind {
    match r {
        Ok(_) => panic!("an error was expected"),
        Err(e) => e.0,
    }
}

#[test]
fn a_null_address_is_no_virtual_machine() {
    assert_eq!(
        refusal(JavaVM::from_raw(0, None)),
        ErrorKind::NullPtr("from_raw ptr argument")
    );
}

#[test]
fn a_null_address_is_refused_with_a_library_too() {
    assert_eq!(
        refusal(JavaVM::from_raw(0, Some(this_process()))),
        ErrorKind::NullPtr("from_raw ptr argument")
    );
}

#[test]
fn a_handle_exposes_its_address() {
    let vm = JavaVM::from_raw(0x7f00_1000, None).unwrap_or_else(|_| panic!("refused"));
    assert_eq!(vm.get_java_vm_pointer(), 0x7f00_1000);
}

#[test]
fn every_address_but_null_is_taken() {
    for ptr in [1usize, 2, 8, 0xdead_beef, usize::MAX - 1, usize::MAX] {
        let vm = JavaVM::from_raw(ptr, None).unwrap_or_else(|_| panic!("refused"));
        assert_eq!(vm.get_java_vm_pointer(), ptr);
    }
}

#[test]
fn a_handle_without_a_library_has_none() {
    let vm = JavaVM::from_raw(64, None).unwrap_or_else(|_| panic!("refused"));
    assert!(vm.get_library().is_none());
}

#[test]
fn a_handle_keeps_the_library_it_was_given() {
    let vm = JavaVM::from_raw(64, Some(this_process())).unwrap_or_else(|_| panic!("refused"));
    assert!(vm.get_library().is_some());
    assert_eq!(vm.get_java_vm_pointer(), 64);
}

#[test]
fn a_handle_is_shared_between_threads() {
    shared::<JavaVM>();
}

#[test]
fn a_null_address_is_no_environment() {
    assert_eq!(
        refusal(JNIEnv::from_raw(0)),
        ErrorKind::NullPtr("from_raw ptr argument")
    );
}

#[test]
fn an_environment_exposes_its_address() {
    let env = JNIEnv::from_raw(0x1234).unwrap_or_else(|_| panic!("refused"));
    assert_eq!(env.get_native_interface(), 0x1234);
    let env = JNIEnv::from_raw(usize::MAX).unwrap_or_else(|_| panic!("refused"));
    assert_eq!(env.get_native_interface(), usize::MAX);
}

#[test]
fn slots_are_named_as_in_the_table() {
    assert_eq!(VmCall::GetEnv { version: 0x0001_0001 }.name(), "GetEnv");
    assert_eq!(VmCall::AttachCurrentThread.name(), "AttachCurrentThread");
    assert_eq!(VmCall::AttachCurrentThreadAsDaemon.name(), "AttachCurrentThreadAsDaemon");
    assert_eq!(VmCall::DetachCurrentThread.name(), "DetachCurrentThread");
}

#[test]
fn a_call_that_was_made_hands_out_what_it_returned() {
    let reply = VmReply::Returned { code: -3, env: 0 };
    assert_eq!(reply.returned(&VmCall::AttachCurrentThread), Ok((-3, 0)));
    let reply = VmReply::Returned { code: 0, env: 4096 };
    assert_eq!(reply.returned(&VmCall::GetEnv { version: 0x0001_0001 }), Ok((0, 4096)));
}

#[test]
fn a_null_virtual_machine_is_a_null_deref() {
    assert_eq!(
        refusal(VmReply::NullVm.returned(&VmCall::DetachCurrentThread)),
        ErrorKind::NullDeref("JavaVM")
    );
}

#[test]
fn a_null_table_is_a_null_deref() {
    assert_eq!(
        refusal(VmReply::NullTable.returned(&VmCall::DetachCurrentThread)),
        ErrorKind::NullDeref("*JavaVM")
    );
}

#[test]
fn a_null_slot_is_reported_under_the_name_of_the_call() {
    assert_eq!(
        refusal(VmReply::NullSlot.returned(&VmCall::GetEnv { version: 0x0001_0001 })),
        ErrorKind::JavaVMMethodNotFound("GetEnv")
    );
    assert_eq!(
        refusal(VmReply::NullSlot.returned(&VmCall::AttachCurrentThread)),
        ErrorKind::JavaVMMethodNotFound("AttachCurrentThread")
    );
    assert_eq!(
        refusal(VmReply::NullSlot.returned(&VmCall::AttachCurrentThreadAsDaemon)),
        ErrorKind::JavaVMMethodNotFound("AttachCurrentThreadAsDaemon")
    );
    assert_eq!(
        refusal(VmReply::NullSlot.returned(&VmCall::DetachCurrentThread)),
        ErrorKind::JavaVMMethodNotFound("DetachCurrentThread")
    );
}

#[test]
fn a_detach_that_was_carried_out_is_success() {
    assert_eq!(detach_result(&VmReply::Returned { code: 0, env: 0 }), Ok(()));
    assert_eq!(detach_result(&VmReply::Returned { code: 0, env: 77 }), Ok(()));
}

#[test]
fn a_detach_that_was_refused_is_the_error_of_its_status() {
    assert_eq!(
        detach_result(&VmReply::Returned { code: -1, env: 0 }),
        Err(Error(ErrorKind::Other(-1)))
    );
    assert_eq!(
        detach_result(&VmReply::Returned { code: -2, env: 77 }),
        Err(Error(ErrorKind::ThreadDetached))
    );
    assert_eq!(
        detach_result(&VmReply::Returned { code: -4, env: 0 }),
        Err(Error(ErrorKind::NotEnoughMemory))
    );
    assert_eq!(
        detach_result(&VmReply::Returned { code: 17, env: 0 }),
        Err(Error(ErrorKind::Other(17)))
    );
}

#[test]
fn a_detach_call_that_was_not_made_is_an_error() {
    assert_eq!(
        detach_result(&VmReply::NullSlot),
        Err(Error(ErrorKind::JavaVMMethodNotFound("DetachCurrentThread")))
    );
    assert_eq!(
        detach_result(&VmReply::NullTable),
        Err(Error(ErrorKind::NullDeref("*JavaVM")))
    );
    assert_eq!(detach_result(&VmReply::NullVm), Err(Error(ErrorKind::NullDeref("JavaVM"))));
}

#[test]
fn a_created_machine_is_handed_out_after_the_detach_call() {
    let launch = JavaVM::new(0, 0x5000, this_process()).unwrap_or_else(|_| panic!("refused"));
    assert_eq!(launch.get_java_vm_pointer(), 0x5000);
    assert_eq!(launch.call(), VmCall::DetachCurrentThread);
    let vm = launch
        .finish(&VmReply::Returned { code: 0, env: 0 })
        .unwrap_or_else(|_| panic!("refused"));
    assert_eq!(vm.get_java_vm_pointer(), 0x5000);
    assert!(vm.get_library().is_some());
}

#[test]
fn the_status_of_the_detach_after_creation_is_not_looked_at() {
    let launch = JavaVM::new(0, 0x5000, this_process()).unwrap_or_else(|_| panic!("refused"));
    let vm = launch
        .finish(&VmReply::Returned { code: -1, env: 0 })
        .unwrap_or_else(|_| panic!("refused"));
    assert_eq!(vm.get_java_vm_pointer(), 0x5000);
}

#[test]
fn a_creation_that_failed_gives_its_status() {
    assert_eq!(refusal(JavaVM::new(-5, 0x5000, this_process())), ErrorKind::AlreadyCreated);
    assert_eq!(refusal(JavaVM::new(-4, 0, this_process())), ErrorKind::NotEnoughMemory);
    assert_eq!(refusal(JavaVM::new(-6, 0x5000, this_process())), ErrorKind::InvalidArguments);
    assert_eq!(refusal(JavaVM::new(-3, 0x5000, this_process())), ErrorKind::InvalidVersion);
    assert_eq!(refusal(JavaVM::new(-1, 0x5000, this_process())), ErrorKind::Other(-1));
}

#[test]
fn a_creation_that_stored_no_address_is_a_null_pointer() {
    assert_eq!(
        refusal(JavaVM::new(0, 0, this_process())),
        ErrorKind::NullPtr("from_raw ptr argument")
    );
}

#[test]
fn a_created_machine_without_a_detach_slot_is_dropped() {
    let launch = JavaVM::new(0, 0x5000, this_process()).unwrap_or_else(|_| panic!("refused"));
    assert_eq!(
        refusal(launch.finish(&VmReply::NullSlot)),
        ErrorKind::JavaVMMethodNotFound("DetachCurrentThread")
    );
}
