//! The environment: the handle through which an attached thread calls into
//! the virtual machine.

use std::marker::PhantomData;
use std::rc::Rc;
use vstd::prelude::*;
use crate::errors::{non_null, Error, ErrorKind};

verus! {

/// The environment of one attached thread, by its address. It is valid on
/// that thread only, and no longer than the virtual machine that handed it
/// out: the type is neither `Send` nor `Sync`, and `'a` is the borrow of the
/// virtual machine's handle.
pub struct JNIEnv<'a> {
    internal: usize,
    lifetime: PhantomData<(&'a (), Rc<()>)>,
}

impl<'a> View for JNIEnv<'a> {
    type V = usize;

    /// The address of the environment.
    closed spec fn view(&self) -> usize {
        self.internal
    }
}

impl<'a> JNIEnv<'a> {
    #[verifier::type_invariant]
    spec fn non_null(&self) -> bool {
        self.internal != 0
    }

    /// The environment at the given address. The null address is refused
    /// with `NullPtr`; every other address is taken as it is.
    pub fn from_raw(ptr: usize) -> (r: Result<JNIEnv<'a>, Error>)
        ensures
            ptr == 0 ==> (r matches Err(e) && e == Error(
                ErrorKind::NullPtr("from_raw ptr argument"),
            )),
            ptr != 0 ==> (r matches Ok(env) && env@ == ptr),
    {
        match non_null(ptr, "from_raw ptr argument") {
            Err(e) => Err(e),
            Ok(address) => Ok(JNIEnv { internal: address, lifetime: PhantomData }),
        }
    }

    /// The address of the environment. It is never null.
    pub fn get_native_interface(&self) -> (ptr: usize)
        ensures
            ptr == self@,
            ptr != 0,
    {
        proof {
            use_type_invariant(self);
        }
        self.internal
    }
}

} // verus!
