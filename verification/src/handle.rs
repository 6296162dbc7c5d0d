//! Addresses of objects that the engine owns.

use vstd::prelude::*;

verus! {

/// The address of an object that the engine owns. It is never null.
#[derive(Clone, Copy, Debug, PartialEq, Eq)]
pub struct Handle {
    addr: usize,
}

impl View for Handle {
    type V = usize;

    closed spec fn view(&self) -> usize {
        self.addr
    }
}

impl Handle {
    #[verifier::type_invariant]
    spec fn non_null(self) -> bool {
        self.addr != 0
    }

    /// Reads what the engine returned where it returns an object or null:
    /// `None` for null, the object's handle for any other address.
    pub fn new(ptr: usize) -> (handle: Option<Handle>)
        ensures
            handle is None <==> ptr == 0,
            handle is Some ==> handle->0@ == ptr,
    {
        if ptr == 0 {
            None
        } else {
            Some(Handle { addr: ptr })
        }
    }

    /// The address, for a call into the engine.
    pub fn as_ptr(&self) -> (ptr: usize)
        ensures
            ptr == self@,
            ptr != 0,
    {
        proof {
            use_type_invariant(self);
        }
        self.addr
    }
}

} // verus!
