//! Objects of the engine's widget tree, as far as the display layer meets
//! them.

use crate::handle::Handle;
use vstd::prelude::*;

verus! {

/// Why an operation on an engine object could not be carried out.
#[derive(Clone, Copy, Debug, PartialEq, Eq, Structural)]
pub enum LvError {
    /// The object refers to nothing in the engine.
    InvalidReference,
}

/// What an operation on an engine object returns.
pub type LvResult<T> = Result<T, LvError>;

/// An object of the engine's widget tree, such as a screen. The engine owns
/// it; this value only refers to it, and may refer to nothing.
#[derive(Debug, PartialEq, Eq)]
pub struct Obj {
    raw: usize,
}

impl View for Obj {
    type V = usize;

    closed spec fn view(&self) -> usize {
        self.raw
    }
}

impl Obj {
    /// The object at the given address.
    pub fn from_raw(raw: Handle) -> (obj: Obj)
        ensures
            obj@ == raw@,
            obj@ != 0,
    {
        Obj { raw: raw.as_ptr() }
    }

    /// An object that refers to nothing, as the engine returns it where it
    /// could not create one.
    pub fn null() -> (obj: Obj)
        ensures
            obj@ == 0,
    {
        Obj { raw: 0 }
    }

    /// The object's address, or `InvalidReference` where it refers to
    /// nothing.
    pub fn raw(&self) -> (raw: LvResult<Handle>)
        ensures
            self@ == 0 ==> raw == Err::<Handle, LvError>(LvError::InvalidReference),
            self@ != 0 ==> raw is Ok && raw->Ok_0@ == self@,
    {
        match Handle::new(self.raw) {
            Some(handle) => Ok(handle),
            None => Err(LvError::InvalidReference),
        }
    }
}

} // verus!
