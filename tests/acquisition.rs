use jit_buffer::acquire::{Acquire, Action, Event};
use jit_buffer::layout::BufferError;

#[test]
fn successful_acquisition_runs_every_call() {
    let (s, a) = Acquire::begin(2);
    assert_eq!(a, Action::Allocate { size: 8192, align: 4096 });
    let (s, a) = s.step(Event::Allocated { base: Some(0x10000) });
    assert_eq!(a, Action::Protect { base: 0x10000, size: 8192 });
    let (s, a) = s.step(Event::Protected { ok: true });
    assert_eq!(a, Action::Fill { base: 0x10000, size: 8192, byte: 0xC3 });
    let (s, a) = s.step(Event::Filled);
    match s {
        Acquire::Ready { region } => {
            assert_eq!(a, Action::Finish { region });
            assert_eq!(region.base(), 0x10000);
            assert_eq!(region.page_count(), 2);
            assert_eq!(region.size_bytes(), 2 * 4096);
            assert_eq!(region.base() % 4096, 0);
        }
        other => panic!("not ready: {:?}", other),
    }
}

#[test]
fn nonpositive_count_asks_for_no_memory() {
    for n in [0i64, -1, -4096] {
        let (s, a) = Acquire::begin(n);
        assert_eq!(s, Acquire::Failed { error: BufferError::InvalidSize });
        assert_eq!(a, Action::Fail { error: BufferError::InvalidSize });
    }
}

#[test]
fn allocator_without_memory_fails() {
    let (s, _) = Acquire::begin(1);
    let (s, a) = s.step(Event::Allocated { base: None });
    assert_eq!(s, Acquire::Failed { error: BufferError::AllocationFailed });
    assert_eq!(a, Action::Fail { error: BufferError::AllocationFailed });
}

#[test]
fn misaligned_block_is_given_back() {
    let (s, _) = Acquire::begin(1);
    let (s, a) = s.step(Event::Allocated { base: Some(0x10008) });
    assert_eq!(a, Action::Release { base: 0x10008 });
    let (s, a) = s.step(Event::Released);
    assert_eq!(s, Acquire::Failed { error: BufferError::AllocationFailed });
    assert_eq!(a, Action::Fail { error: BufferError::AllocationFailed });
}

#[test]
fn refused_protection_releases_before_failing() {
    let (s, _) = Acquire::begin(1);
    let (s, _) = s.step(Event::Allocated { base: Some(0x20000) });
    let (s, a) = s.step(Event::Protected { ok: false });
    assert_eq!(a, Action::Release { base: 0x20000 });
    let (s, a) = s.step(Event::Released);
    assert_eq!(s, Acquire::Failed { error: BufferError::ProtectionChangeFailed });
    assert_eq!(a, Action::Fail { error: BufferError::ProtectionChangeFailed });
}

#[test]
fn each_step_awaits_its_own_event() {
    let (s, _) = Acquire::begin(1);
    assert!(s.awaits(&Event::Allocated { base: None }));
    assert!(!s.awaits(&Event::Filled));
    let (s, _) = s.step(Event::Allocated { base: Some(0x1000) });
    assert!(s.awaits(&Event::Protected { ok: true }));
    assert!(!s.awaits(&Event::Released));
    let (s, _) = s.step(Event::Protected { ok: true });
    assert!(s.awaits(&Event::Filled));
    let (s, _) = s.step(Event::Filled);
    assert!(!s.awaits(&Event::Filled));
    assert!(!s.awaits(&Event::Released));
}
