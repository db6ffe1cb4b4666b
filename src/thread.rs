//! Thread handles: a native thread block owned by the wrapper, and a name that
//! lives either inside that block or in a buffer that the wrapper owns.
use vstd::prelude::*;

use crate::native::{
    name_of, name_readable_in, within_block, zeros, NativeEvent, NativeThreads, ThreadRecord,
    MAX_NAME_LEN, THREAD_BLOCK_SIZE,
};
use crate::status::Result as Status;
use crate::text::{
    c_prefix, c_string, decode_name, has_nul, lemma_c_prefix_push_nul, lemma_label_round_trip,
    name_text,
};
use crate::timespan::TimeSpan;
use vstd::string::StringSliceAdditionalSpecFns;

verus! {

/// The buffer that holds the thread's name when the wrapper owns it: the name
/// pointer, where it lies outside the thread block.
pub open spec fn owned_name_buffer<N: NativeThreads + ?Sized>(os: &N, h: usize) -> Option<usize> {
    let p = os.threads()[h].name_ptr;
    if within_block(h, p) {
        None
    } else {
        Some(p)
    }
}

/// The live blocks, leaving out the name buffer that the thread owns.
pub open spec fn heap_without_name<N: NativeThreads + ?Sized>(os: &N, h: usize) -> Map<
    usize,
    Seq<u8>,
> {
    match owned_name_buffer(os, h) {
        Some(p) => os.heap().remove(p),
        None => os.heap(),
    }
}

/// What releasing the thread's owned name buffer records: the name pointer
/// cleared, then the buffer freed.
pub open spec fn name_free_events<N: NativeThreads + ?Sized>(os: &N, h: usize) -> Seq<
    NativeEvent,
> {
    match owned_name_buffer(os, h) {
        Some(p) => seq![NativeEvent::SetNamePointer(h, 0), NativeEvent::Free(p)],
        None => Seq::empty(),
    }
}

/// Room to allocate never shrinks from `before` to `after`.
pub open spec fn keeps_room<N: NativeThreads + ?Sized>(before: &N, after: &N) -> bool {
    forall|n: usize| #[trigger] before.can_allocate(n) ==> after.can_allocate(n)
}

/// From `before` to `after`, at most `size` bytes of room were used up.
pub open spec fn room_after<N: NativeThreads + ?Sized>(before: &N, after: &N, size: usize) -> bool {
    forall|n: usize|
        n + size <= usize::MAX && before.can_allocate((n + size) as usize)
            ==> #[trigger] after.can_allocate(n)
}

/// A handle to a native thread whose block the wrapper allocated.
pub struct Thread {
    handle: usize,
}

impl Thread {
    /// The numerically lowest, and so most urgent, priority.
    pub const PRIORITY_MAX: i32 = 0;

    /// The numerically highest, and so least urgent, priority.
    pub const PRIORITY_MIN: i32 = 31;

    /// The priority threads usually get.
    pub const PRIORITY_DEFAULT: i32 = 16;

    /// Names shorter than this many bytes are stored inside the thread block.
    pub const MAX_NAME_LEN: usize = MAX_NAME_LEN;

    /// The address of the thread block.
    pub closed spec fn spec_handle(&self) -> usize {
        self.handle
    }

    /// The thread block is live and holds a live thread whose name can be
    /// read.
    pub open spec fn wf<N: NativeThreads + ?Sized>(&self, os: &N) -> bool {
        let h = self.spec_handle();
        &&& os.valid()
        &&& os.heap().contains_key(h)
        &&& os.heap()[h].len() == THREAD_BLOCK_SIZE
        &&& os.threads().contains_key(h)
        &&& name_readable_in(os.heap(), os.threads()[h], h)
    }

    /// The creation call that the native side receives for the block `h`.
    pub open spec fn create_call(
        h: usize,
        entry: usize,
        arg: usize,
        stack: usize,
        stack_size: usize,
        priority: i32,
        core: Option<i32>,
        status: u32,
    ) -> NativeEvent {
        NativeEvent::CreateThread { handle: h, entry, arg, stack, stack_size, priority, core, status }
    }

    /// What creating a thread leaves behind, for the result `r`: a fresh
    /// zeroed block that overlaps no live block is allocated and handed to
    /// one native creation call together with the entry point, argument,
    /// stack, priority and core. On success the thread lives in that block;
    /// on failure the native status is returned and the block is released.
    pub open spec fn created<N: NativeThreads + ?Sized>(
        before: &N,
        after: &N,
        r: core::result::Result<Thread, Status>,
        entry: usize,
        arg: usize,
        stack: usize,
        stack_size: usize,
        priority: i32,
        core: Option<i32>,
    ) -> bool {
        &&& room_after(before, after, THREAD_BLOCK_SIZE)
        &&& match r {
            Ok(t) => {
                let h = t.spec_handle();
                &&& t.wf(after)
                &&& !before.heap().contains_key(h)
                &&& forall|q: usize|
                    #[trigger] before.heap().contains_key(q) ==> h + THREAD_BLOCK_SIZE <= q || q
                        + before.heap()[q].len() <= h
                &&& after.heap() == before.heap().insert(h, zeros(THREAD_BLOCK_SIZE as nat))
                &&& after.threads().remove(h) == before.threads()
                &&& after.threads()[h].original_priority == priority
                &&& after.threads()[h].current_priority == priority
                &&& owned_name_buffer(after, h) == None::<usize>
                &&& after.events() == before.events() + seq![
                    NativeEvent::Allocate(h),
                    Thread::create_call(h, entry, arg, stack, stack_size, priority, core, 0),
                ]
            },
            Err(e) => {
                &&& e.spec_raw() != 0
                &&& after.valid()
                &&& after.heap() == before.heap()
                &&& after.threads() == before.threads()
                &&& exists|h: usize|
                    after.events() == before.events() + seq![
                        NativeEvent::Allocate(h),
                        Thread::create_call(
                            h,
                            entry,
                            arg,
                            stack,
                            stack_size,
                            priority,
                            core,
                            e.spec_raw(),
                        ),
                        NativeEvent::Free(h),
                    ]
            },
        }
    }

    /// What destroying the thread `h` leaves behind: its owned name buffer
    /// (name pointer cleared first), then the native thread, then its block,
    /// released in that order.
    pub open spec fn destroyed<N: NativeThreads + ?Sized>(before: &N, after: &N, h: usize) -> bool {
        &&& after.valid()
        &&& keeps_room(before, after)
        &&& after.heap() == heap_without_name(before, h).remove(h)
        &&& after.threads() == before.threads().remove(h)
        &&& after.events() == before.events() + name_free_events(before, h) + seq![
            NativeEvent::DestroyThread(h),
            NativeEvent::Free(h),
        ]
    }

    /// What naming the thread `h` with the bytes `label` leaves behind: the
    /// name reads as `label` up to any zero byte; it is inline exactly when
    /// `label` is shorter than `MAX_NAME_LEN`, and otherwise an owned buffer
    /// holds `label` then one zero; apart from the thread's own name buffer no
    /// block comes or goes; the old buffer's release, then the new one's
    /// allocation and registration, are recorded; the priorities stay.
    pub open spec fn renamed<N: NativeThreads + ?Sized>(
        before: &N,
        after: &N,
        h: usize,
        label: Seq<u8>,
    ) -> bool {
        &&& name_of(after, h) == c_prefix(label)
        &&& owned_name_buffer(after, h).is_none() <==> label.len() < MAX_NAME_LEN
        &&& match owned_name_buffer(after, h) {
            Some(p) => after.heap()[p] == label.push(0),
            None => true,
        }
        &&& label.len() < MAX_NAME_LEN ==> keeps_room(before, after)
        &&& label.len() >= MAX_NAME_LEN ==> room_after(before, after, (label.len() + 1) as usize)
        &&& heap_without_name(after, h) == heap_without_name(before, h)
        &&& after.events() == before.events() + name_free_events(before, h) + match owned_name_buffer(
            after,
            h,
        ) {
            Some(p) => seq![NativeEvent::Allocate(p), NativeEvent::SetNamePointer(h, p)],
            None => Seq::empty(),
        }
        &&& after.threads().dom() == before.threads().dom()
        &&& after.threads().remove(h) == before.threads().remove(h)
        &&& after.threads()[h].original_priority == before.threads()[h].original_priority
        &&& after.threads()[h].current_priority == before.threads()[h].current_priority
    }

    fn create<N: NativeThreads>(
        os: &mut N,
        entry: usize,
        arg: usize,
        stack: usize,
        stack_size: usize,
        priority: i32,
        core: Option<i32>,
    ) -> (r: core::result::Result<Thread, Status>)
        requires
            old(os).valid(),
            old(os).can_allocate(THREAD_BLOCK_SIZE),
        ensures
            Thread::created(old(os), final(os), r, entry, arg, stack, stack_size, priority, core),
    {
        let handle = os.allocate_zeroed(THREAD_BLOCK_SIZE);
        let ghost allocated = *os;
        let status = os.create_thread(handle, entry, arg, stack, stack_size, priority, core);
        let ghost called = *os;
        if status == 0 {
            let t = Thread { handle };
            proof {
                assert forall|n: usize|
                    n + THREAD_BLOCK_SIZE <= usize::MAX && old(os).can_allocate(
                        (n + THREAD_BLOCK_SIZE) as usize,
                    ) implies #[trigger] os.can_allocate(n) by {
                    assert(allocated.can_allocate(n));
                }
                assert(within_block(handle, os.threads()[handle].name_ptr));
                assert(os.events() =~= old(os).events() + seq![
                    NativeEvent::Allocate(handle),
                    Thread::create_call(handle, entry, arg, stack, stack_size, priority, core, 0),
                ]);
            }
            Ok(t)
        } else {
            os.free(handle);
            let e = Status::from_raw(status);
            proof {
                assert forall|n: usize|
                    n + THREAD_BLOCK_SIZE <= usize::MAX && old(os).can_allocate(
                        (n + THREAD_BLOCK_SIZE) as usize,
                    ) implies #[trigger] os.can_allocate(n) by {
                    assert(allocated.can_allocate(n));
                    assert(called.can_allocate(n));
                }
                assert(os.heap() =~= old(os).heap());
                assert(os.events() =~= old(os).events() + seq![
                    NativeEvent::Allocate(handle),
                    Thread::create_call(
                        handle,
                        entry,
                        arg,
                        stack,
                        stack_size,
                        priority,
                        core,
                        e.spec_raw(),
                    ),
                    NativeEvent::Free(handle),
                ]);
            }
            Err(e)
        }
    }

    /// Creates a thread that will run `entry(arg)` on the given stack; on a
    /// native failure the block is released and the status returned.
    pub fn new<N: NativeThreads>(
        os: &mut N,
        entry: usize,
        arg: usize,
        stack: usize,
        stack_size: usize,
        priority: i32,
    ) -> (r: core::result::Result<Thread, Status>)
        requires
            old(os).valid(),
            old(os).can_allocate(THREAD_BLOCK_SIZE),
        ensures
            Thread::created(old(os), final(os), r, entry, arg, stack, stack_size, priority, None),
    {
        Thread::create(os, entry, arg, stack, stack_size, priority, None)
    }

    /// As `new`, with the thread pinned to `core`.
    pub fn new_on_core<N: NativeThreads>(
        os: &mut N,
        entry: usize,
        arg: usize,
        stack: usize,
        stack_size: usize,
        priority: i32,
        core: i32,
    ) -> (r: core::result::Result<Thread, Status>)
        requires
            old(os).valid(),
            old(os).can_allocate(THREAD_BLOCK_SIZE),
        ensures
            Thread::created(
                old(os),
                final(os),
                r,
                entry,
                arg,
                stack,
                stack_size,
                priority,
                Some(core),
            ),
    {
        Thread::create(os, entry, arg, stack, stack_size, priority, Some(core))
    }

    /// Releases the name buffer that the thread owns, if any, clearing the
    /// native name pointer first. An inline name is left to the native side.
    fn free_name<N: NativeThreads>(&self, os: &mut N)
        requires
            self.wf(old(os)),
        ensures
            final(os).valid(),
            final(os).heap() == heap_without_name(old(os), self.spec_handle()),
            forall|n: usize| #[trigger] old(os).can_allocate(n) ==> final(os).can_allocate(n),
            final(os).events() == old(os).events() + name_free_events(
                old(os),
                self.spec_handle(),
            ),
            final(os).threads().dom() == old(os).threads().dom(),
            final(os).threads().remove(self.spec_handle()) == old(os).threads().remove(
                self.spec_handle(),
            ),
            owned_name_buffer(old(os), self.spec_handle()) is Some ==> final(os).threads()[self.spec_handle()]
                == (ThreadRecord { name_ptr: 0, ..old(os).threads()[self.spec_handle()] }),
            owned_name_buffer(old(os), self.spec_handle()) is None ==> final(os).threads() == old(
                os,
            ).threads(),
    {
        let h = self.handle;
        let p = os.name_pointer(h);
        if !(h <= p && p - h < THREAD_BLOCK_SIZE) {
            os.set_name_pointer(h, 0);
            os.free(p);
            proof {
                assert(os.threads().dom() =~= old(os).threads().dom());
                assert(os.threads().remove(h) =~= old(os).threads().remove(h));
                assert(os.events() =~= old(os).events() + name_free_events(old(os), h));
                assert(os.threads()[h] == ThreadRecord { name_ptr: 0, ..old(os).threads()[h] });
            }
        } else {
            proof {
                assert(os.events() =~= old(os).events() + name_free_events(old(os), h));
            }
        }
    }

    /// Releases the owned name buffer, tears the native thread down, and
    /// releases the thread block.
    pub fn destroy<N: NativeThreads>(self, os: &mut N)
        requires
            self.wf(old(os)),
        ensures
            Thread::destroyed(old(os), final(os), self.spec_handle()),
    {
        let h = self.handle;
        self.free_name(os);
        os.destroy_thread(h);
        os.free(h);
        proof {
            assert(os.threads() =~= old(os).threads().remove(h));
            assert(os.events() =~= old(os).events() + name_free_events(old(os), h) + seq![
                NativeEvent::DestroyThread(h),
                NativeEvent::Free(h),
            ]);
        }
    }
    /// Lets the thread run.
    pub fn start<N: NativeThreads>(&mut self, os: &mut N)
        requires
            old(self).wf(old(os)),
        ensures
            final(self).wf(final(os)),
            *final(self) == *old(self),
            final(os).heap() == old(os).heap(),
            final(os).threads() == old(os).threads(),
            final(os).events() == old(os).events().push(NativeEvent::StartThread(old(self).spec_handle())),
            keeps_room(old(os), final(os)),
    {
        os.start_thread(self.handle);
    }

    /// Blocks until the thread has finished.
    pub fn wait<N: NativeThreads>(&mut self, os: &mut N)
        requires
            old(self).wf(old(os)),
        ensures
            final(self).wf(final(os)),
            *final(self) == *old(self),
            final(os).heap() == old(os).heap(),
            final(os).threads() == old(os).threads(),
            final(os).events() == old(os).events().push(NativeEvent::WaitThread(old(self).spec_handle())),
            keeps_room(old(os), final(os)),
    {
        os.wait_thread(self.handle);
    }

    /// Sets the thread's current priority and returns the one it replaced.
    pub fn set_priority<N: NativeThreads>(&mut self, os: &mut N, priority: i32) -> (r: i32)
        requires
            old(self).wf(old(os)),
        ensures
            *final(self) == *old(self),
            final(self).wf(final(os)),
            r == old(os).threads()[old(self).spec_handle()].current_priority,
            final(os).heap() == old(os).heap(),
            keeps_room(old(os), final(os)),
            final(os).events() == old(os).events(),
            final(os).threads() == old(os).threads().insert(
                old(self).spec_handle(),
                ThreadRecord {
                    current_priority: priority,
                    ..old(os).threads()[old(self).spec_handle()]
                },
            ),
    {
        os.change_priority(self.handle, priority)
    }

    /// The priority the thread was created with.
    pub fn get_original_priority<N: NativeThreads>(&self, os: &N) -> (r: i32)
        requires
            self.wf(os),
        ensures
            r == os.threads()[self.spec_handle()].original_priority,
    {
        os.original_priority(self.handle)
    }

    /// The priority the thread runs at now.
    pub fn get_current_priority<N: NativeThreads>(&self, os: &N) -> (r: i32)
        requires
            self.wf(os),
        ensures
            r == os.threads()[self.spec_handle()].current_priority,
    {
        os.current_priority(self.handle)
    }

    /// Names the thread. A name shorter than `MAX_NAME_LEN` bytes is copied
    /// into the thread block by the native side; a longer one goes to a
    /// zero-filled buffer of its length plus one that the thread owns. The
    /// buffer the thread owned before is released first.
    pub fn set_name<N: NativeThreads>(&mut self, os: &mut N, name: &str)
        requires
            old(self).wf(old(os)),
            name.spec_bytes().len() >= MAX_NAME_LEN ==> {
                &&& name.spec_bytes().len() < usize::MAX
                &&& old(os).can_allocate((name.spec_bytes().len() + 1) as usize)
            },
        ensures
            *final(self) == *old(self),
            final(self).wf(final(os)),
            Thread::renamed(old(os), final(os), old(self).spec_handle(), name.spec_bytes()),
    {
        let h = self.handle;
        self.free_name(os);
        let ghost freed = *os;
        let bytes = name.as_bytes();
        let len = name.len();
        if len < MAX_NAME_LEN {
            let c = c_string(name);
            proof {
                lemma_c_prefix_push_nul(name.spec_bytes());
                assert(c@[len as int] == 0);
            }
            os.set_inline_name(h, c.as_slice());
            proof {
                assert forall|n: usize| #[trigger] old(os).can_allocate(n) implies os.can_allocate(
                    n,
                ) by {
                    assert(freed.can_allocate(n));
                }
                assert(os.threads().remove(h) =~= old(os).threads().remove(h));
                assert(os.events() =~= old(os).events() + name_free_events(old(os), h) + Seq::<
                    NativeEvent,
                >::empty());
            }
        } else {
            let p = os.allocate_zeroed(len + 1);
            let ghost allocated = *os;
            os.copy_into(p, bytes);
            let ghost copied = *os;
            os.set_name_pointer(h, p);
            proof {
                assert forall|n: usize|
                    n + (len + 1) <= usize::MAX && old(os).can_allocate(
                        (n + (len + 1)) as usize,
                    ) implies #[trigger] os.can_allocate(n) by {
                    assert(freed.can_allocate((n + (len + 1)) as usize));
                    assert(allocated.can_allocate(n));
                    assert(copied.can_allocate(n));
                }
                let buf = os.heap()[p];
                assert(buf =~= name.spec_bytes().push(0));
                assert(buf[len as int] == 0);
                assert(has_nul(buf));
                lemma_c_prefix_push_nul(name.spec_bytes());
                assert(!within_block(h, p));
                assert(os.heap().remove(p) =~= freed.heap());
                assert(os.events() =~= old(os).events() + name_free_events(old(os), h) + seq![
                    NativeEvent::Allocate(p),
                    NativeEvent::SetNamePointer(h, p),
                ]);
                assert(os.threads().dom() =~= old(os).threads().dom());
                assert(os.threads().remove(h) =~= old(os).threads().remove(h));
            }
        }
    }

    /// The thread's name; the empty text where its bytes are not UTF-8.
    pub fn get_name<N: NativeThreads>(&self, os: &N) -> (r: String)
        requires
            self.wf(os),
        ensures
            r@ == name_text(name_of(os, self.spec_handle())),
    {
        let bytes = os.read_name(self.handle);
        decode_name(bytes.as_slice())
    }

    /// A handle to the calling thread. It was not created through this
    /// wrapper, so it is not for `destroy`.
    pub fn current<N: NativeThreads>(os: &N) -> (r: Thread)
        requires
            os.valid(),
        ensures
            r.spec_handle() == os.caller(),
    {
        Thread { handle: os.current_thread() }
    }

    /// Gives up the rest of the caller's time slice.
    pub fn yield_now<N: NativeThreads>(os: &N)
        requires
            os.valid(),
    {
        os.yield_now();
    }

    /// Blocks the caller for `time`.
    pub fn sleep<N: NativeThreads>(os: &N, time: TimeSpan)
        requires
            os.valid(),
    {
        os.sleep(time);
    }

    /// The core that the caller runs on.
    pub fn get_current_core<N: NativeThreads>(os: &N) -> (r: i32)
        requires
            os.valid(),
        ensures
            r == os.caller_core(),
    {
        os.current_core()
    }
}

/// Destroying a thread right after creating it records, after the allocation
/// and the creation, the native teardown and then the release of the block,
/// and leaves the live blocks and threads as they were before.
pub proof fn lemma_create_then_destroy<N: NativeThreads>(
    s0: &N,
    s1: &N,
    s2: &N,
    t: Thread,
    entry: usize,
    arg: usize,
    stack: usize,
    stack_size: usize,
    priority: i32,
    core: Option<i32>,
)
    requires
        Thread::created(s0, s1, Ok(t), entry, arg, stack, stack_size, priority, core),
        Thread::destroyed(s1, s2, t.spec_handle()),
    ensures
        s2.events() == s0.events() + seq![
            NativeEvent::Allocate(t.spec_handle()),
            Thread::create_call(t.spec_handle(), entry, arg, stack, stack_size, priority, core, 0),
            NativeEvent::DestroyThread(t.spec_handle()),
            NativeEvent::Free(t.spec_handle()),
        ],
        s2.heap() == s0.heap(),
        s2.threads() == s0.threads(),
{
    let h = t.spec_handle();
    assert(s2.heap() =~= s0.heap());
    assert(s2.events() =~= s0.events() + seq![
        NativeEvent::Allocate(h),
        Thread::create_call(h, entry, arg, stack, stack_size, priority, core, 0),
        NativeEvent::DestroyThread(h),
        NativeEvent::Free(h),
    ]);
}

/// A label without the NUL character, once set as a thread's name, reads
/// back as itself; it is stored inside the thread block exactly when its byte length
/// is below `MAX_NAME_LEN`.
pub proof fn lemma_name_round_trip<N: NativeThreads>(before: &N, after: &N, h: usize, label: &str)
    requires
        Thread::renamed(before, after, h, label.spec_bytes()),
        forall|i: int| 0 <= i < label@.len() ==> label@[i] != '\0',
    ensures
        name_text(name_of(after, h)) == label@,
        owned_name_buffer(after, h).is_none() <==> label.spec_bytes().len() < MAX_NAME_LEN,
{
    lemma_label_round_trip(label@);
}

/// Renaming a thread twice leaves, apart from its one name buffer, the same
/// live blocks as before: the first buffer does not outlive the second name.
pub proof fn lemma_rename_keeps_one_buffer<N: NativeThreads>(
    s0: &N,
    s1: &N,
    s2: &N,
    h: usize,
    first: Seq<u8>,
    second: Seq<u8>,
)
    requires
        Thread::renamed(s0, s1, h, first),
        Thread::renamed(s1, s2, h, second),
    ensures
        heap_without_name(s2, h) == heap_without_name(s0, h),
        owned_name_buffer(s2, h).is_some() <==> second.len() >= MAX_NAME_LEN,
{
}

} // verus!
