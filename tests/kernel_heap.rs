use heap_alloc::align::PAGE_SIZE;
use heap_alloc::kernel_heap::{
    on_retry, poison_freed, require_frame, Allocator, FatalError, HeapBounds, KernelStep, FREED_BYTE,
    RESERVED_HEAP_SIZE,
};

const BASE: usize = 0x4000_0000;

fn ready() -> Allocator {
    let mut a = Allocator::new();
    a.init(Some(BASE)).unwrap();
    a
}

#[test]
fn init_maps_first_page_and_guards_rest() {
    let mut a = Allocator::new();
    assert!(!a.is_initialized());
    let plan = a.init(Some(BASE)).unwrap().expect("first use sets the heap up");
    assert_eq!(plan.map_at, BASE);
    assert_eq!(plan.guard_start, BASE + 0x1000);
    assert_eq!(plan.guard_len, 512 * 1024 * 1024 - 0x1000);
    assert_eq!(plan.bounds, HeapBounds { bottom: BASE, size: 0x1000 });
    assert_eq!(a.heap, Some(HeapBounds { bottom: BASE, size: 0x1000 }));
}

#[test]
fn init_is_idempotent() {
    let mut a = ready();
    let before = a.heap;
    assert_eq!(a.init(Some(0x8000_0000)), Ok(None));
    assert_eq!(a.init(Some(BASE)), Ok(None));
    assert_eq!(a.init(None), Ok(None));
    assert_eq!(a.heap, before);
}

#[test]
fn expansion_rounds_up_to_pages() {
    let a = ready();
    let plan = a.plan_expand(100).unwrap();
    assert_eq!(plan.grow, PAGE_SIZE);
    assert_eq!(plan.old_top, BASE + 0x1000);
    assert_eq!(plan.pages, vec![BASE + 0x1000]);
    let plan = a.plan_expand(0x1001).unwrap();
    assert_eq!(plan.grow, 0x2000);
    assert_eq!(plan.pages, vec![BASE + 0x1000, BASE + 0x2000]);
    let plan = a.plan_expand(0x2000).unwrap();
    assert_eq!(plan.grow, 0x2000);
}

#[test]
fn expansion_up_to_reservation_is_allowed() {
    let a = ready();
    let plan = a.plan_expand(RESERVED_HEAP_SIZE - PAGE_SIZE).unwrap();
    assert_eq!(plan.grow, RESERVED_HEAP_SIZE - PAGE_SIZE);
    assert_eq!(plan.pages.len(), RESERVED_HEAP_SIZE / PAGE_SIZE - 1);
}

#[test]
fn expansion_past_reservation_is_fatal() {
    let a = ready();
    assert_eq!(
        a.plan_expand(RESERVED_HEAP_SIZE - PAGE_SIZE + 1).unwrap_err(),
        FatalError::ExpansionDenied
    );
    assert_eq!(a.plan_expand(usize::MAX).unwrap_err(), FatalError::ExpansionDenied);
    match a.on_first_fit(RESERVED_HEAP_SIZE, None) {
        KernelStep::Fatal(e) => assert_eq!(e, FatalError::ExpansionDenied),
        other => panic!("unexpected step {:?}", other),
    }
}

#[test]
fn scenario_kernel_grow_and_reuse() {
    let mut a = ready();
    // 4 KiB fits in the first mapped page: no growth.
    match a.on_first_fit(0x1000, Some(BASE)) {
        KernelStep::Done(p) => assert_eq!(p, BASE),
        other => panic!("unexpected step {:?}", other),
    }
    // 1 MiB does not: the heap grows by 256 pages.
    let plan = match a.on_first_fit(0x10_0000, None) {
        KernelStep::Expand(plan) => plan,
        other => panic!("unexpected step {:?}", other),
    };
    assert_eq!(plan.pages.len(), 256);
    assert_eq!(plan.pages[0], BASE + 0x1000);
    assert_eq!(plan.pages[255], BASE + 0x1000 + 255 * 0x1000);
    a.commit_expand(0x10_0000, &plan);
    assert_eq!(a.heap, Some(HeapBounds { bottom: BASE, size: 0x1000 + 0x10_0000 }));
    assert_eq!(on_retry(Some(BASE + 0x1000)), BASE + 0x1000);
    // The freed 4 KiB block is found again: no further growth.
    match a.on_first_fit(0x1000, Some(BASE)) {
        KernelStep::Done(p) => assert_eq!(p, BASE),
        other => panic!("unexpected step {:?}", other),
    }
    assert_eq!(a.heap, Some(HeapBounds { bottom: BASE, size: 0x1000 + 0x10_0000 }));
}

#[test]
fn retry_failure_is_null() {
    assert_eq!(on_retry(None), 0);
    assert_eq!(on_retry(Some(0x1234)), 0x1234);
}

#[test]
fn freed_block_reads_sentinel() {
    let mut block = vec![1u8, 2, 3, 4, 5, 6, 7, 8];
    poison_freed(&mut block[2..6]);
    assert_eq!(block, vec![1, 2, 0x7F, 0x7F, 0x7F, 0x7F, 7, 8]);
    assert_eq!(FREED_BYTE, 0x7F);
    let mut empty: Vec<u8> = Vec::new();
    poison_freed(&mut empty[..]);
    assert!(empty.is_empty());
}

#[test]
fn init_without_reservation_is_fatal() {
    let mut a = Allocator::new();
    assert_eq!(a.init(None), Err(FatalError::NoVirtualSpace));
    assert_eq!(a.heap, None);
    assert_eq!(a.init(Some(usize::MAX - 0xFFF)), Err(FatalError::NoVirtualSpace));
    assert_eq!(a.heap, None);
    let top_fit = usize::MAX - RESERVED_HEAP_SIZE;
    assert!(a.init(Some(top_fit)).unwrap().is_some());
    assert_eq!(a.heap, Some(HeapBounds { bottom: top_fit, size: PAGE_SIZE }));
}

#[test]
fn missing_frame_is_fatal() {
    assert_eq!(require_frame(Some(0x20_0000)), Ok(0x20_0000));
    assert_eq!(require_frame(None), Err(FatalError::PhysicalMemoryExhausted));
}
