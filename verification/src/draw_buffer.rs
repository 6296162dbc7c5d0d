//! The staging buffer that the engine renders into.
//!
//! The engine keeps the address of the staging memory for as long as it runs,
//! so a buffer is handed out once and never again: a second driver that asks
//! for the same buffer is turned away instead of sharing the memory with the
//! first.
//!
//! Acquiring takes the buffer by exclusive reference. Two acquisitions can
//! therefore never overlap: threads that share a buffer reach it through a
//! lock of their own, one after another, and the first of them wins.

use vstd::prelude::*;

verus! {

/// Widest display, in cells, that the engine is configured for.
pub const HOR_RES_MAX: u32 = 240;

/// Number of display lines that the staging memory has room for.
pub const REFRESH_BUFFER_LEN: u32 = 2;

/// Number of cells in the staging memory.
pub const BUF_SIZE: usize = 480;

/// `heapless::Vec`, a vector whose room for `N` items lies inside the value
/// itself.
#[verifier::external_type_specification]
#[verifier::external_body]
#[verifier::reject_recursive_types(T)]
pub struct ExStagingVec<T, const N: usize>(heapless::Vec<T, N>);

/// The cells that a staging vector holds, first to last.
pub uninterp spec fn staged_cells(memory: heapless::Vec<u16, BUF_SIZE>) -> Seq<u16>;

/// `heapless::Vec::new`: a vector of fixed capacity that holds nothing yet.
#[verifier::external_body]
fn new_staging_memory() -> (memory: heapless::Vec<u16, BUF_SIZE>)
    ensures
        staged_cells(memory) == Seq::<u16>::empty(),
{
    heapless::Vec::new()
}

/// What a driver receives when it acquires a [`DrawBuffer`]: the description
/// of the staging memory that the engine is initialised with.
#[derive(Clone, Copy, Debug, PartialEq, Eq, Structural)]
pub struct DispBuf {
    /// Number of cells that the engine may render before it has to flush.
    pub size: u32,
}

/// Staging memory for one display, with the record of whether it was handed
/// out.
pub struct DrawBuffer {
    initialized: bool,
    refresh_buffer: heapless::Vec<u16, BUF_SIZE>,
}

impl DrawBuffer {
    /// The buffer was handed out.
    pub closed spec fn is_initialized(self) -> bool {
        self.initialized
    }

    /// The staging memory.
    pub closed spec fn memory(self) -> heapless::Vec<u16, BUF_SIZE> {
        self.refresh_buffer
    }

    /// A buffer that no driver has acquired yet. Its memory holds nothing.
    pub fn new() -> (buffer: DrawBuffer)
        ensures
            !buffer.is_initialized(),
            staged_cells(buffer.memory()) == Seq::<u16>::empty(),
    {
        DrawBuffer { initialized: false, refresh_buffer: new_staging_memory() }
    }

    /// Hands the buffer out, once. The first call returns the description of
    /// the staging memory and marks the buffer as taken; every later call
    /// returns `None` and changes nothing.
    pub fn get_ptr(&mut self) -> (handle: Option<DispBuf>)
        ensures
            acquires(*old(self), *final(self), handle),
    {
        if !self.initialized {
            self.initialized = true;
            Some(DispBuf { size: HOR_RES_MAX * REFRESH_BUFFER_LEN })
        } else {
            None
        }
    }

    /// Whether the buffer was handed out.
    pub fn initialized(&self) -> (taken: bool)
        ensures
            taken == self.is_initialized(),
    {
        self.initialized
    }

    /// The staging memory, for the engine to render into.
    pub fn refresh_buffer(&mut self) -> (memory: &mut heapless::Vec<u16, BUF_SIZE>)
        ensures
            *memory == old(self).memory(),
            final(self).memory() == *final(memory),
            final(self).is_initialized() == old(self).is_initialized(),
    {
        &mut self.refresh_buffer
    }
}

/// What `get_ptr` does, as a relation between the buffer before the call, the
/// buffer after it and the handle returned: a buffer that was not taken gives
/// its handle, one that was taken gives none, and either way the buffer is
/// taken afterwards and its memory is the same.
pub open spec fn acquires(before: DrawBuffer, after: DrawBuffer, handle: Option<DispBuf>) -> bool {
    &&& after.is_initialized()
    &&& after.memory() == before.memory()
    &&& handle == if before.is_initialized() {
        None
    } else {
        Some(DispBuf { size: BUF_SIZE as u32 })
    }
}

/// Two acquisitions of a new buffer yield a handle and then nothing.
pub proof fn lemma_single_acquisition(
    before: DrawBuffer,
    between: DrawBuffer,
    after: DrawBuffer,
    first: Option<DispBuf>,
    second: Option<DispBuf>,
)
    requires
        !before.is_initialized(),
        acquires(before, between, first),
        acquires(between, after, second),
    ensures
        first == Some(DispBuf { size: BUF_SIZE as u32 }),
        second is None,
{
}

/// The acquisitions `handles` were made one after another on one buffer,
/// which went through the states `states`: `states[k]` is the buffer before
/// acquisition `k` and `states[k + 1]` the buffer after it.
pub open spec fn acquired_in_turn(states: Seq<DrawBuffer>, handles: Seq<Option<DispBuf>>) -> bool {
    &&& states.len() == handles.len() + 1
    &&& forall|k: int|
        0 <= k < handles.len() ==> acquires(states[k], #[trigger] states[k + 1], handles[k])
}

/// However many callers acquire a new buffer, in whatever order they come,
/// exactly one of them gets the handle: the one that comes first.
pub proof fn lemma_one_winner(states: Seq<DrawBuffer>, handles: Seq<Option<DispBuf>>)
    requires
        acquired_in_turn(states, handles),
        handles.len() >= 1,
        !states[0].is_initialized(),
    ensures
        handles[0] == Some(DispBuf { size: BUF_SIZE as u32 }),
        forall|k: int| 1 <= k < handles.len() ==> (#[trigger] handles[k]) is None,
{
    let start: int = 0;
    assert(acquires(states[start], states[start + 1], handles[start]));
    assert forall|k: int| 1 <= k < handles.len() implies (#[trigger] handles[k]) is None by {
        assert(acquires(states[k - 1], states[(k - 1) + 1], handles[k - 1]));
        assert(acquires(states[k], states[k + 1], handles[k]));
    }
}

} // verus!
