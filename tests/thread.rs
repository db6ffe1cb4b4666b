use nnsdk::native::{NativeEvent, MAX_NAME_LEN, THREAD_BLOCK_SIZE};
use nnsdk::sim::SimulatedOs;
use nnsdk::{Result, Thread};

fn last_allocation(os: &SimulatedOs) -> usize {
    let log = os.event_log();
    for e in log.iter().rev() {
        if let NativeEvent::Allocate(p) = e {
            return *p;
        }
    }
    panic!("nothing was allocated")
}

fn spawn(os: &mut SimulatedOs, priority: i32) -> Thread {
    match Thread::new(os, 0x100, 0, 0x2000, 0x1000, priority) {
        Ok(t) => t,
        Err(_) => panic!("creation failed"),
    }
}

#[test]
fn short_name_round_trips_inline() {
    let mut os = SimulatedOs::new();
    let mut t = spawn(&mut os, Thread::PRIORITY_DEFAULT);
    let before = os.live_blocks();
    t.set_name(&mut os, "worker");
    assert_eq!(t.get_name(&os), "worker");
    assert_eq!(os.live_blocks(), before);
    let name = "x".repeat(MAX_NAME_LEN - 1);
    t.set_name(&mut os, &name);
    assert_eq!(t.get_name(&os), name);
    assert_eq!(os.live_blocks(), before);
}

#[test]
fn long_name_round_trips_in_owned_buffer() {
    let mut os = SimulatedOs::new();
    let mut t = spawn(&mut os, Thread::PRIORITY_DEFAULT);
    let before = os.live_blocks();
    let name = "y".repeat(MAX_NAME_LEN);
    t.set_name(&mut os, &name);
    assert_eq!(t.get_name(&os), name);
    assert_eq!(os.live_blocks(), before + 1);
    let p = last_allocation(&os);
    let mut expected = name.as_bytes().to_vec();
    expected.push(0);
    assert_eq!(os.block(p), Some(expected));
    let log = os.event_log();
    let h = os_first_block(&os);
    assert_eq!(log[log.len() - 2..].to_vec(), vec![NativeEvent::Allocate(p), NativeEvent::SetNamePointer(h, p)]);
}

#[test]
fn renaming_with_long_names_keeps_one_buffer() {
    let mut os = SimulatedOs::new();
    let mut t = spawn(&mut os, Thread::PRIORITY_DEFAULT);
    let before = os.live_blocks();
    let first = "a".repeat(40);
    let second = "b".repeat(50);
    t.set_name(&mut os, &first);
    let first_ptr = last_allocation(&os);
    let h = os_first_block(&os);
    let mark = os.event_log().len();
    t.set_name(&mut os, &second);
    let second_ptr = last_allocation(&os);
    assert_eq!(
        os.event_log()[mark..].to_vec(),
        vec![
            NativeEvent::SetNamePointer(h, 0),
            NativeEvent::Free(first_ptr),
            NativeEvent::Allocate(second_ptr),
            NativeEvent::SetNamePointer(h, second_ptr),
        ]
    );
    assert_eq!(t.get_name(&os), second);
    assert_eq!(os.live_blocks(), before + 1);
    assert_eq!(os.block(first_ptr), None);
    t.set_name(&mut os, "short");
    assert_eq!(t.get_name(&os), "short");
    assert_eq!(os.live_blocks(), before);
}

#[test]
fn name_with_multibyte_text_round_trips() {
    let mut os = SimulatedOs::new();
    let mut t = spawn(&mut os, Thread::PRIORITY_DEFAULT);
    t.set_name(&mut os, "héllo wörld ✓");
    assert_eq!(t.get_name(&os), "héllo wörld ✓");
    let long = "ü".repeat(20);
    t.set_name(&mut os, &long);
    assert_eq!(t.get_name(&os), long);
}

#[test]
fn name_is_read_up_to_a_zero_byte() {
    let mut os = SimulatedOs::new();
    let mut t = spawn(&mut os, Thread::PRIORITY_DEFAULT);
    t.set_name(&mut os, "ab\u{0}cd");
    assert_eq!(t.get_name(&os), "ab");
}

#[test]
fn create_then_destroy_cleans_up_in_order() {
    let mut os = SimulatedOs::new();
    let t = spawn(&mut os, Thread::PRIORITY_DEFAULT);
    let log = os.event_log();
    let h = match log[0] {
        NativeEvent::Allocate(h) => h,
        _ => panic!("the block was not allocated first"),
    };
    t.destroy(&mut os);
    assert_eq!(
        os.event_log(),
        vec![
            NativeEvent::Allocate(h),
            NativeEvent::CreateThread {
                handle: h,
                entry: 0x100,
                arg: 0,
                stack: 0x2000,
                stack_size: 0x1000,
                priority: Thread::PRIORITY_DEFAULT,
                core: None,
                status: 0,
            },
            NativeEvent::DestroyThread(h),
            NativeEvent::Free(h),
        ]
    );
    assert_eq!(os.live_blocks(), 0);
}

#[test]
fn destroy_frees_name_buffer_first() {
    let mut os = SimulatedOs::new();
    let mut t = spawn(&mut os, Thread::PRIORITY_DEFAULT);
    t.set_name(&mut os, &"z".repeat(64));
    let h = os_first_block(&os);
    let p = last_allocation(&os);
    t.destroy(&mut os);
    let log = os.event_log();
    let n = log.len();
    assert_eq!(
        log[n - 4..].to_vec(),
        vec![
            NativeEvent::SetNamePointer(h, 0),
            NativeEvent::Free(p),
            NativeEvent::DestroyThread(h),
            NativeEvent::Free(h),
        ]
    );
    assert_eq!(os.live_blocks(), 0);
}

#[test]
fn priority_scenario() {
    let mut os = SimulatedOs::new();
    let mut t = spawn(&mut os, 16);
    assert_eq!(t.get_current_priority(&os), 16);
    assert_eq!(t.set_priority(&mut os, 5), 16);
    assert_eq!(t.get_current_priority(&os), 5);
    assert_eq!(t.get_original_priority(&os), 16);
}

#[test]
fn failed_creation_returns_status_and_leaks_nothing() {
    let mut os = SimulatedOs::new();
    os.set_create_status(Result::new(3, 42).raw());
    match Thread::new(&mut os, 0x100, 0, 0x2000, 0x1000, 16) {
        Ok(_) => panic!("creation should fail"),
        Err(e) => assert_eq!(e.get(), (3, 42)),
    }
    assert_eq!(os.live_blocks(), 0);
    let log = os.event_log();
    assert_eq!(log.len(), 3);
    assert!(matches!(log[2], NativeEvent::Free(_)));
}

#[test]
fn failed_creation_on_core_returns_status() {
    let mut os = SimulatedOs::new();
    os.set_create_status(Result::new(5, 7).raw());
    match Thread::new_on_core(&mut os, 0x100, 0, 0x2000, 0x1000, 16, 1) {
        Ok(_) => panic!("creation should fail"),
        Err(e) => assert_eq!(e.get(), (5, 7)),
    }
    assert_eq!(os.live_blocks(), 0);
}

#[test]
fn creation_on_core_succeeds_with_priority() {
    let mut os = SimulatedOs::new();
    let mut t = match Thread::new_on_core(&mut os, 0x100, 0, 0x2000, 0x1000, Thread::PRIORITY_MAX, 2) {
        Ok(t) => t,
        Err(_) => panic!("creation failed"),
    };
    assert_eq!(t.get_original_priority(&os), 0);
    t.start(&mut os);
    t.wait(&mut os);
    let h = os_first_block(&os);
    let log = os.event_log();
    assert_eq!(
        log[1],
        NativeEvent::CreateThread {
            handle: h,
            entry: 0x100,
            arg: 0,
            stack: 0x2000,
            stack_size: 0x1000,
            priority: 0,
            core: Some(2),
            status: 0,
        }
    );
    assert_eq!(log[2..].to_vec(), vec![NativeEvent::StartThread(h), NativeEvent::WaitThread(h)]);
    assert_eq!(os.live_blocks(), 1);
    assert_eq!(os.block(os_first_block(&os)).map(|b| b.len()), Some(THREAD_BLOCK_SIZE));
    t.destroy(&mut os);
    assert_eq!(os.live_blocks(), 0);
}

fn os_first_block(os: &SimulatedOs) -> usize {
    match os.event_log()[0] {
        NativeEvent::Allocate(h) => h,
        _ => panic!("the block was not allocated first"),
    }
}

#[test]
fn caller_queries() {
    let os = SimulatedOs::new();
    assert_eq!(Thread::get_current_core(&os), 0);
    Thread::yield_now(&os);
    Thread::sleep(&os, nnsdk::TimeSpan::from_millis(1));
    let _ = Thread::current(&os);
}

#[test]
fn threshold_is_byte_length() {
    let mut os = SimulatedOs::new();
    let mut t = spawn(&mut os, Thread::PRIORITY_DEFAULT);
    let mark = os.event_log().len();
    t.set_name(&mut os, &"a".repeat(31));
    assert_eq!(os.event_log().len(), mark);
    let wide = "é".repeat(16);
    t.set_name(&mut os, &wide);
    let p = last_allocation(&os);
    assert_eq!(os.block(p).map(|b| b.len()), Some(33));
    assert_eq!(t.get_name(&os), wide);
    t.set_name(&mut os, &"b".repeat(32));
    let q = last_allocation(&os);
    assert_eq!(os.block(q).map(|b| b.len()), Some(33));
    assert_eq!(os.block(p), None);
}
