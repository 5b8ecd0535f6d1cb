use std::sync::Mutex;

use jni_vm::errors::{non_null, Error, ErrorKind, Exception, ToException};

struct Overflow {
    limit: u32,
}

impl ToException for Overflow {
    fn to_exception(&self) -> Exception {
        Exception {
            class: String::from("java/lang/ArithmeticException"),
            msg: format!("over {}", self.limit),
        }
    }
}

fn shared<T: Send + Sync>() {}

#[test]
fn an_error_is_its_kind() {
    let e = Error::from_kind(ErrorKind::JavaException);
    assert_eq!(e.kind(), &ErrorKind::JavaException);
    assert_eq!(e, Error(ErrorKind::JavaException));
}

#[test]
fn a_kind_converts_into_an_error() {
    let e: Error = ErrorKind::InvalidArgList.into();
    assert_eq!(e, Error(ErrorKind::InvalidArgList));
    let e = Error::from(ErrorKind::MethodNotFound(String::from("run"), String::from("()V")));
    assert_eq!(
        e.kind(),
        &ErrorKind::MethodNotFound(String::from("run"), String::from("()V"))
    );
}

#[test]
fn a_held_lock_is_try_lock() {
    let slot = Mutex::new(5);
    let held = slot.lock().unwrap();
    let e = match slot.try_lock() {
        Ok(_) => panic!("the lock was taken twice"),
        Err(refused) => Error::from(refused),
    };
    assert_eq!(e, Error(ErrorKind::TryLock));
    assert_eq!(*held, 5);
}

#[test]
fn kinds_keep_what_they_carry() {
    let wrong = ErrorKind::WrongValueType("jint", "jlong");
    assert_eq!(wrong, ErrorKind::WrongValueType("jint", "jlong"));
    assert_ne!(wrong, ErrorKind::WrongValueType("jlong", "jint"));
    let field = ErrorKind::FieldNotFound(String::from("count"), String::from("I"));
    assert_ne!(field, ErrorKind::MethodNotFound(String::from("count"), String::from("I")));
    assert_ne!(ErrorKind::NullPtr("here"), ErrorKind::NullDeref("here"));
    assert_ne!(
        ErrorKind::JNIEnvMethodNotFound("GetEnv"),
        ErrorKind::JavaVMMethodNotFound("GetEnv")
    );
    assert_ne!(ErrorKind::InvalidCtorReturn, ErrorKind::InvalidArgList);
}

#[test]
fn errors_are_shared_between_threads() {
    shared::<Error>();
    shared::<ErrorKind>();
}

#[test]
fn the_null_address_is_refused_where_it_was_found() {
    assert_eq!(non_null(0, "callback"), Err(Error(ErrorKind::NullPtr("callback"))));
}

#[test]
fn other_addresses_pass_the_null_check() {
    assert_eq!(non_null(1, "callback"), Ok(1));
    assert_eq!(non_null(usize::MAX, "callback"), Ok(usize::MAX));
}

#[test]
fn an_exception_is_described_on_demand() {
    let first = Overflow { limit: 7 }.to_exception();
    assert_eq!(first.class, "java/lang/ArithmeticException");
    assert_eq!(first.msg, "over 7");
    let second = Overflow { limit: 8 }.to_exception();
    assert_eq!(second.msg, "over 8");
}
