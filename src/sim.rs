//! An in-memory native thread layer: a bump allocator, a table of threads and
//! a log of allocations, frees, creations and teardowns. It serves hosts
//! without the native SDK and lets callers observe what a handle did.
use std::collections::HashMap;
use vstd::prelude::*;

use crate::native::{
    within_block, zeros, NativeEvent, NativeThreads, ThreadRecord, THREAD_BLOCK_SIZE,
};
use crate::text::{c_prefix, c_prefix_of};
use crate::timespan::TimeSpan;

verus! {

broadcast use vstd::std_specs::hash::group_hash_axioms;

/// Address of the first block that the simulated allocator hands out.
pub const FIRST_ADDRESS: usize = 0x10000;

/// Offset of the inline name storage inside a thread block.
pub const INLINE_NAME_OFFSET: usize = 0x40;

/// One simulated thread.
pub struct SimThread {
    original_priority: i32,
    current_priority: i32,
    name_ptr: usize,
    inline_name: Vec<u8>,
}

impl SimThread {
    pub closed spec fn record(&self) -> ThreadRecord {
        ThreadRecord {
            original_priority: self.original_priority,
            current_priority: self.current_priority,
            name_ptr: self.name_ptr,
            inline_name: self.inline_name@,
        }
    }
}

/// The simulated native layer.
pub struct SimulatedOs {
    blocks: HashMap<usize, Vec<u8>>,
    threads: HashMap<usize, SimThread>,
    events: Vec<NativeEvent>,
    next: usize,
    create_status: u32,
    core: i32,
    caller: usize,
}

impl SimulatedOs {
    /// The raw status that thread creations return.
    pub closed spec fn next_status(&self) -> u32 {
        self.create_status
    }

    /// A layer with nothing allocated, on which creations succeed.
    pub fn new() -> (r: Self)
        ensures
            r.valid(),
            r.heap() == Map::<usize, Seq<u8>>::empty(),
            r.threads() == Map::<usize, ThreadRecord>::empty(),
            r.events() == Seq::<NativeEvent>::empty(),
            r.caller() == 0,
            r.caller_core() == 0,
            r.next_status() == 0,
            forall|n: usize| n <= usize::MAX - FIRST_ADDRESS ==> #[trigger] r.can_allocate(n),
    {
        let r = SimulatedOs {
            blocks: HashMap::new(),
            threads: HashMap::new(),
            events: Vec::new(),
            next: FIRST_ADDRESS,
            create_status: 0,
            core: 0,
            caller: 0,
        };
        assert(r.heap() =~= Map::<usize, Seq<u8>>::empty());
        assert(r.threads() =~= Map::<usize, ThreadRecord>::empty());
        r
    }

    /// Makes later thread creations return the raw status `status`.
    pub fn set_create_status(&mut self, status: u32)
        requires
            old(self).valid(),
        ensures
            final(self).valid(),
            final(self).next_status() == status,
            final(self).heap() == old(self).heap(),
            final(self).threads() == old(self).threads(),
            final(self).events() == old(self).events(),
            final(self).caller() == old(self).caller(),
            final(self).caller_core() == old(self).caller_core(),
            forall|n: usize| #[trigger] old(self).can_allocate(n) ==> final(self).can_allocate(n),
    {
        self.create_status = status;
    }

    /// The log of allocations, frees, creations and teardowns.
    pub fn event_log(&self) -> (r: Vec<NativeEvent>)
        ensures
            r@ == self.events(),
    {
        vstd::slice::slice_to_vec(self.events.as_slice())
    }

    /// How many blocks are live.
    pub fn live_blocks(&self) -> (r: usize)
        ensures
            r == self.heap().len(),
    {
        proof {
            assert(self.blocks@.dom() =~= self.heap().dom());
        }
        self.blocks.len()
    }

    /// The bytes of the live block at `ptr`.
    pub fn block(&self, ptr: usize) -> (r: Option<Vec<u8>>)
        ensures
            r.is_some() == self.heap().contains_key(ptr),
            r.is_some() ==> r.unwrap()@ == self.heap()[ptr],
    {
        match self.blocks.get(&ptr) {
            Some(b) => Some(vstd::slice::slice_to_vec(b.as_slice())),
            None => None,
        }
    }
}

impl NativeThreads for SimulatedOs {
    closed spec fn heap(&self) -> Map<usize, Seq<u8>> {
        self.blocks@.map_values(|v: Vec<u8>| v@)
    }

    closed spec fn threads(&self) -> Map<usize, ThreadRecord> {
        self.threads@.map_values(|t: SimThread| t.record())
    }

    closed spec fn events(&self) -> Seq<NativeEvent> {
        self.events@
    }

    /// Blocks lie below the bump pointer and do not overlap; threads live in
    /// blocks that were handed out.
    closed spec fn valid(&self) -> bool {
        &&& self.next >= FIRST_ADDRESS
        &&& forall|q: usize| #[trigger]
            self.blocks@.contains_key(q) ==> FIRST_ADDRESS <= q && 0 < self.blocks@[q]@.len()
                && q + self.blocks@[q]@.len() <= self.next
        &&& forall|t: usize| #[trigger] self.threads@.contains_key(t) ==> t + THREAD_BLOCK_SIZE <= self.next
    }

    closed spec fn caller(&self) -> usize {
        self.caller
    }

    closed spec fn caller_core(&self) -> i32 {
        self.core
    }

    closed spec fn can_allocate(&self, size: usize) -> bool {
        self.next + size <= usize::MAX
    }

    fn allocate_zeroed(&mut self, size: usize) -> (r: usize) {
        let r = self.next;
        let mut v: Vec<u8> = Vec::new();
        let mut i: usize = 0;
        while i < size
            invariant
                i <= size,
                v@ == zeros(i as nat),
            decreases size - i,
        {
            v.push(0u8);
            i = i + 1;
            assert(v@ =~= zeros(i as nat));
        }
        self.blocks.insert(r, v);
        self.next = r + size;
        self.events.push(NativeEvent::Allocate(r));
        proof {
            assert(self.heap() =~= old(self).heap().insert(r, zeros(size as nat)));
            assert(self.threads() =~= old(self).threads());
        }
        r
    }

    fn free(&mut self, ptr: usize) {
        self.blocks.remove(&ptr);
        self.events.push(NativeEvent::Free(ptr));
        proof {
            assert(self.heap() =~= old(self).heap().remove(ptr));
        }
    }

    fn copy_into(&mut self, ptr: usize, bytes: &[u8]) {
        match self.blocks.remove(&ptr) {
            Some(mut v) => {
                let ghost before = v@;
                let mut i: usize = 0;
                while i < bytes.len()
                    invariant
                        i <= bytes@.len(),
                        bytes@.len() <= before.len(),
                        v@.len() == before.len(),
                        forall|j: int| 0 <= j < i ==> v@[j] == bytes@[j],
                        forall|j: int| i <= j < before.len() ==> v@[j] == before[j],
                    decreases bytes@.len() - i,
                {
                    v.set(i, bytes[i]);
                    i = i + 1;
                }
                assert(v@ =~= bytes@ + before.skip(bytes@.len() as int));
                self.blocks.insert(ptr, v);
                proof {
                    assert(self.heap() =~= old(self).heap().insert(
                        ptr,
                        bytes@ + old(self).heap()[ptr].skip(bytes@.len() as int),
                    ));
                }
            },
            None => {},
        }
    }

    fn create_thread(
        &mut self,
        handle: usize,
        entry: usize,
        arg: usize,
        stack: usize,
        stack_size: usize,
        priority: i32,
        core: Option<i32>,
    ) -> (r: u32)
        ensures
            r == old(self).next_status(),
    {
        let status = self.create_status;
        if status == 0 {
            let t = SimThread {
                original_priority: priority,
                current_priority: priority,
                name_ptr: handle + INLINE_NAME_OFFSET,
                inline_name: Vec::new(),
            };
            self.threads.insert(handle, t);
            proof {
                assert(self.threads().remove(handle) =~= old(self).threads());
            }
        }
        self.events.push(
            NativeEvent::CreateThread {
                handle,
                entry,
                arg,
                stack,
                stack_size,
                priority,
                core,
                status,
            },
        );
        status
    }

    fn destroy_thread(&mut self, handle: usize) {
        self.threads.remove(&handle);
        self.events.push(NativeEvent::DestroyThread(handle));
        proof {
            assert(self.threads() =~= old(self).threads().remove(handle));
        }
    }

    fn start_thread(&mut self, handle: usize) {
        self.events.push(NativeEvent::StartThread(handle));
    }

    fn wait_thread(&mut self, handle: usize) {
        self.events.push(NativeEvent::WaitThread(handle));
    }

    fn change_priority(&mut self, handle: usize, priority: i32) -> (r: i32) {
        match self.threads.remove(&handle) {
            Some(t) => {
                let previous = t.current_priority;
                let t2 = SimThread { current_priority: priority, ..t };
                self.threads.insert(handle, t2);
                proof {
                    assert(self.threads() =~= old(self).threads().insert(
                        handle,
                        ThreadRecord {
                            current_priority: priority,
                            ..old(self).threads()[handle]
                        },
                    ));
                }
                previous
            },
            None => 0,
        }
    }

    fn original_priority(&self, handle: usize) -> (r: i32) {
        match self.threads.get(&handle) {
            Some(t) => t.original_priority,
            None => 0,
        }
    }

    fn current_priority(&self, handle: usize) -> (r: i32) {
        match self.threads.get(&handle) {
            Some(t) => t.current_priority,
            None => 0,
        }
    }

    fn set_inline_name(&mut self, handle: usize, name: &[u8]) {
        match self.threads.remove(&handle) {
            Some(t) => {
                let t2 = SimThread {
                    name_ptr: handle + INLINE_NAME_OFFSET,
                    inline_name: c_prefix_of(name),
                    ..t
                };
                self.threads.insert(handle, t2);
                proof {
                    assert(self.threads().dom() =~= old(self).threads().dom());
                }
            },
            None => {},
        }
    }

    fn set_name_pointer(&mut self, handle: usize, ptr: usize) {
        match self.threads.remove(&handle) {
            Some(t) => {
                let t2 = SimThread { name_ptr: ptr, ..t };
                self.threads.insert(handle, t2);
                self.events.push(NativeEvent::SetNamePointer(handle, ptr));
                proof {
                    assert(self.threads() =~= old(self).threads().insert(
                        handle,
                        ThreadRecord { name_ptr: ptr, ..old(self).threads()[handle] },
                    ));
                }
            },
            None => {},
        }
    }

    fn name_pointer(&self, handle: usize) -> (r: usize) {
        match self.threads.get(&handle) {
            Some(t) => t.name_ptr,
            None => 0,
        }
    }

    fn read_name(&self, handle: usize) -> (r: Vec<u8>) {
        match self.threads.get(&handle) {
            Some(t) => {
                let p = t.name_ptr;
                if handle <= p && p - handle < THREAD_BLOCK_SIZE {
                    vstd::slice::slice_to_vec(t.inline_name.as_slice())
                } else {
                    match self.blocks.get(&p) {
                        Some(b) => c_prefix_of(b.as_slice()),
                        None => Vec::new(),
                    }
                }
            },
            None => Vec::new(),
        }
    }

    fn yield_now(&self) {
    }

    fn sleep(&self, time: TimeSpan) {
    }

    fn current_core(&self) -> (r: i32) {
        self.core
    }

    fn current_thread(&self) -> (r: usize) {
        self.caller
    }
}

} // verus!
