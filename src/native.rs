//! The native thread primitives that a thread handle is built on, stated over
//! an abstract model of the native side: the blocks that the wrapper has
//! allocated, the threads that the native side knows, and the order in which
//! allocations and teardowns happened.
use vstd::prelude::*;

use crate::text::{c_prefix, has_nul};
use crate::timespan::TimeSpan;

verus! {

/// Size in bytes of the native thread control block.
pub const THREAD_BLOCK_SIZE: usize = 0x1c0;

/// Names whose byte length is below this are stored inline by the native side.
pub const MAX_NAME_LEN: usize = 32;

/// What the native side keeps for one thread.
pub struct ThreadRecord {
    pub original_priority: i32,
    pub current_priority: i32,
    /// Address of the name, as the native side hands it out.
    pub name_ptr: usize,
    /// The name held in the thread block's own storage.
    pub inline_name: Seq<u8>,
}

/// A native call that the layer records, in the order the calls were made.
#[derive(PartialEq, Eq, Structural, Debug, Clone, Copy)]
pub enum NativeEvent {
    Allocate(usize),
    Free(usize),
    /// A creation, with everything handed to the native side and the raw
    /// status it returned.
    CreateThread {
        handle: usize,
        entry: usize,
        arg: usize,
        stack: usize,
        stack_size: usize,
        priority: i32,
        core: Option<i32>,
        status: u32,
    },
    DestroyThread(usize),
    StartThread(usize),
    WaitThread(usize),
    /// The thread's name pointer set to an address (zero for none).
    SetNamePointer(usize, usize),
}

/// Whether `ptr` lies inside the thread block that starts at `block`.
pub open spec fn within_block(block: usize, ptr: usize) -> bool {
    block <= ptr && ptr < block + THREAD_BLOCK_SIZE
}

/// A zero-filled block of `n` bytes.
pub open spec fn zeros(n: nat) -> Seq<u8> {
    Seq::new(n, |i: int| 0u8)
}

/// The native thread layer. Every method stands for one native entry point;
/// handles are the addresses of thread blocks, and names travel as bytes.
///
/// The model is given by the spec functions below. Their defaults exist only
/// so that a layer outside verification can implement the trait: an impl that
/// keeps them cannot meet the contracts (its heap is one fixed map and cannot
/// gain a block), so every verified layer states its own model.
pub trait NativeThreads {
    /// Live blocks that the wrapper allocated, by address, with their bytes.
    closed spec fn heap(&self) -> Map<usize, Seq<u8>> {
        arbitrary()
    }

    /// Threads that the native side has created and not yet torn down.
    closed spec fn threads(&self) -> Map<usize, ThreadRecord> {
        arbitrary()
    }

    /// Allocations, frees, creations and teardowns, oldest first.
    closed spec fn events(&self) -> Seq<NativeEvent> {
        arbitrary()
    }

    /// The handle of the thread that makes the call.
    closed spec fn caller(&self) -> usize {
        arbitrary()
    }

    /// The core that the calling thread runs on.
    closed spec fn caller_core(&self) -> i32 {
        arbitrary()
    }

    /// The layer's own consistency, kept by every method.
    closed spec fn valid(&self) -> bool {
        arbitrary()
    }

    /// Whether a block of `size` bytes can still be allocated.
    closed spec fn can_allocate(&self, size: usize) -> bool {
        arbitrary()
    }

    /// Allocates a zero-filled block that overlaps no live block.
    fn allocate_zeroed(&mut self, size: usize) -> (r: usize)
        requires
            old(self).valid(),
            size > 0,
            old(self).can_allocate(size),
        ensures
            final(self).valid(),
            r != 0,
            r + size <= usize::MAX,
            !old(self).heap().contains_key(r),
            !old(self).threads().contains_key(r),
            forall|q: usize|
                #[trigger] old(self).heap().contains_key(q) ==> r + size <= q || q
                    + old(self).heap()[q].len() <= r,
            final(self).heap() == old(self).heap().insert(r, zeros(size as nat)),
            final(self).threads() == old(self).threads(),
            final(self).events() == old(self).events().push(NativeEvent::Allocate(r)),
            forall|n: usize|
                n + size <= usize::MAX && old(self).can_allocate((n + size) as usize)
                    ==> #[trigger] final(self).can_allocate(n),
    ;

    /// Releases a block that the wrapper allocated.
    fn free(&mut self, ptr: usize)
        requires
            old(self).valid(),
            old(self).heap().contains_key(ptr),
        ensures
            final(self).valid(),
            final(self).heap() == old(self).heap().remove(ptr),
            forall|n: usize| #[trigger] old(self).can_allocate(n) ==> final(self).can_allocate(n),
            final(self).threads() == old(self).threads(),
            final(self).events() == old(self).events().push(NativeEvent::Free(ptr)),
    ;

    /// Copies `bytes` to the start of a live block.
    fn copy_into(&mut self, ptr: usize, bytes: &[u8])
        requires
            old(self).valid(),
            old(self).heap().contains_key(ptr),
            bytes@.len() <= old(self).heap()[ptr].len(),
        ensures
            final(self).valid(),
            final(self).heap() == old(self).heap().insert(
                ptr,
                bytes@ + old(self).heap()[ptr].skip(bytes@.len() as int),
            ),
            forall|n: usize| #[trigger] old(self).can_allocate(n) ==> final(self).can_allocate(n),
            final(self).threads() == old(self).threads(),
            final(self).events() == old(self).events(),
    ;

    /// Creates a thread in the zeroed block at `handle`, pinned to `core` when
    /// one is given, and returns the raw native status. On success the thread
    /// has the given priority and a name stored inside its block.
    fn create_thread(
        &mut self,
        handle: usize,
        entry: usize,
        arg: usize,
        stack: usize,
        stack_size: usize,
        priority: i32,
        core: Option<i32>,
    ) -> (r: u32)
        requires
            old(self).valid(),
            old(self).heap().contains_key(handle),
            old(self).heap()[handle].len() == THREAD_BLOCK_SIZE,
            !old(self).threads().contains_key(handle),
        ensures
            final(self).valid(),
            final(self).heap() == old(self).heap(),
            final(self).events() == old(self).events().push(
                NativeEvent::CreateThread {
                    handle,
                    entry,
                    arg,
                    stack,
                    stack_size,
                    priority,
                    core,
                    status: r,
                },
            ),
            forall|n: usize| #[trigger] old(self).can_allocate(n) ==> final(self).can_allocate(n),
            r != 0 ==> final(self).threads() == old(self).threads(),
            r == 0 ==> {
                &&& final(self).threads().contains_key(handle)
                &&& final(self).threads().remove(handle) == old(self).threads()
                &&& final(self).threads()[handle].original_priority == priority
                &&& final(self).threads()[handle].current_priority == priority
                &&& within_block(handle, final(self).threads()[handle].name_ptr)
            },
    ;

    /// Tears a thread down; its block stays allocated.
    fn destroy_thread(&mut self, handle: usize)
        requires
            old(self).valid(),
            old(self).threads().contains_key(handle),
        ensures
            final(self).valid(),
            final(self).heap() == old(self).heap(),
            final(self).threads() == old(self).threads().remove(handle),
            final(self).events() == old(self).events().push(NativeEvent::DestroyThread(handle)),
            forall|n: usize| #[trigger] old(self).can_allocate(n) ==> final(self).can_allocate(n),
    ;

    /// Lets a created thread run.
    fn start_thread(&mut self, handle: usize)
        requires
            old(self).valid(),
            old(self).threads().contains_key(handle),
        ensures
            final(self).valid(),
            final(self).heap() == old(self).heap(),
            final(self).threads() == old(self).threads(),
            final(self).events() == old(self).events().push(NativeEvent::StartThread(handle)),
            forall|n: usize| #[trigger] old(self).can_allocate(n) ==> final(self).can_allocate(n),
    ;

    /// Blocks until the thread has finished.
    fn wait_thread(&mut self, handle: usize)
        requires
            old(self).valid(),
            old(self).threads().contains_key(handle),
        ensures
            final(self).valid(),
            final(self).heap() == old(self).heap(),
            final(self).threads() == old(self).threads(),
            final(self).events() == old(self).events().push(NativeEvent::WaitThread(handle)),
            forall|n: usize| #[trigger] old(self).can_allocate(n) ==> final(self).can_allocate(n),
    ;

    /// Sets the current priority and returns the one it replaced.
    fn change_priority(&mut self, handle: usize, priority: i32) -> (r: i32)
        requires
            old(self).valid(),
            old(self).threads().contains_key(handle),
        ensures
            final(self).valid(),
            r == old(self).threads()[handle].current_priority,
            forall|n: usize| #[trigger] old(self).can_allocate(n) ==> final(self).can_allocate(n),
            final(self).heap() == old(self).heap(),
            final(self).events() == old(self).events(),
            final(self).threads() == old(self).threads().insert(
                handle,
                ThreadRecord { current_priority: priority, ..old(self).threads()[handle] },
            ),
    ;

    /// The priority the thread was created with.
    fn original_priority(&self, handle: usize) -> (r: i32)
        requires
            self.valid(),
            self.threads().contains_key(handle),
        ensures
            r == self.threads()[handle].original_priority,
    ;

    /// The priority the thread runs at now.
    fn current_priority(&self, handle: usize) -> (r: i32)
        requires
            self.valid(),
            self.threads().contains_key(handle),
        ensures
            r == self.threads()[handle].current_priority,
    ;

    /// Copies a zero-terminated name into the thread block's own storage.
    fn set_inline_name(&mut self, handle: usize, name: &[u8])
        requires
            old(self).valid(),
            old(self).threads().contains_key(handle),
            name@.len() <= MAX_NAME_LEN,
            has_nul(name@),
        ensures
            final(self).valid(),
            final(self).heap() == old(self).heap(),
            final(self).events() == old(self).events(),
            forall|n: usize| #[trigger] old(self).can_allocate(n) ==> final(self).can_allocate(n),
            final(self).threads().dom() == old(self).threads().dom(),
            forall|t: usize|
                t != handle && #[trigger] old(self).threads().contains_key(t)
                    ==> final(self).threads()[t] == old(self).threads()[t],
            ({
                let (o, n) = (old(self).threads()[handle], final(self).threads()[handle]);
                &&& n.original_priority == o.original_priority
                &&& n.current_priority == o.current_priority
                &&& within_block(handle, n.name_ptr)
                &&& n.inline_name == c_prefix(name@)
            }),
    ;

    /// Points the thread's name at `ptr` (zero for none).
    fn set_name_pointer(&mut self, handle: usize, ptr: usize)
        requires
            old(self).valid(),
            old(self).threads().contains_key(handle),
        ensures
            final(self).valid(),
            forall|n: usize| #[trigger] old(self).can_allocate(n) ==> final(self).can_allocate(n),
            final(self).heap() == old(self).heap(),
            final(self).events() == old(self).events().push(
                NativeEvent::SetNamePointer(handle, ptr),
            ),
            final(self).threads() == old(self).threads().insert(
                handle,
                ThreadRecord { name_ptr: ptr, ..old(self).threads()[handle] },
            ),
    ;

    /// The address of the thread's name.
    fn name_pointer(&self, handle: usize) -> (r: usize)
        requires
            self.valid(),
            self.threads().contains_key(handle),
        ensures
            r == self.threads()[handle].name_ptr,
    ;

    /// Reads the thread's name up to its terminating zero.
    fn read_name(&self, handle: usize) -> (r: Vec<u8>)
        requires
            self.valid(),
            self.threads().contains_key(handle),
            name_readable_in(self.heap(), self.threads()[handle], handle),
        ensures
            r@ == name_bytes(self.heap(), self.threads()[handle], handle),
    ;

    /// Gives up the rest of the caller's time slice.
    fn yield_now(&self)
        requires
            self.valid(),
    ;

    /// Blocks the caller for the given span.
    fn sleep(&self, time: TimeSpan)
        requires
            self.valid(),
    ;

    /// The core the caller runs on.
    fn current_core(&self) -> (r: i32)
        requires
            self.valid(),
        ensures
            r == self.caller_core(),
    ;

    /// The handle of the calling thread.
    fn current_thread(&self) -> (r: usize)
        requires
            self.valid(),
        ensures
            r == self.caller(),
    ;
}

/// Whether a thread's name can be read: it is inline, or it is a live block
/// of the wrapper's that holds a terminating zero.
pub open spec fn name_readable_in(heap: Map<usize, Seq<u8>>, rec: ThreadRecord, handle: usize) -> bool {
    within_block(handle, rec.name_ptr) || (heap.contains_key(rec.name_ptr) && has_nul(
        heap[rec.name_ptr],
    ))
}

/// The bytes of a thread's name as the native side reads them.
pub open spec fn name_bytes(heap: Map<usize, Seq<u8>>, rec: ThreadRecord, handle: usize) -> Seq<u8> {
    if within_block(handle, rec.name_ptr) {
        rec.inline_name
    } else {
        c_prefix(heap[rec.name_ptr])
    }
}

/// The bytes of the name of the thread at `handle`.
pub open spec fn name_of<N: NativeThreads + ?Sized>(os: &N, handle: usize) -> Seq<u8> {
    name_bytes(os.heap(), os.threads()[handle], handle)
}

} // verus!
