//! Memory views: construction, sub-views, bulk copy, atomic overlay.

use wasm_boundary::memory::{Memory, MemoryView};

#[test]
fn one_page_view_copy_from_succeeds() {
    // A memory export of 1 page gives a byte view of length 65536; a source
    // of exactly that length copies in.
    let mut mem = Memory::new(1);
    assert_eq!(mem.len(), 65536);
    let view = MemoryView::new(&mem, 0, 65536);
    assert_eq!(view.len(), 65536);
    let src: Vec<u8> = (0..65536u32).map(|i| (i % 251) as u8).collect();
    assert!(view.copy_from_checked(&mut mem, &src));
    assert_eq!(view.get(&mem, 0), 0);
    assert_eq!(view.get(&mem, 250), 250);
    assert_eq!(view.get(&mem, 251), 0);
    assert_eq!(view.get(&mem, 65535), (65535u32 % 251) as u8);
}

#[test]
fn copy_from_wrong_length_fails() {
    let mut mem = Memory::new(1);
    let view = MemoryView::new(&mem, 0, 65536);
    let short: Vec<u8> = vec![7u8; 100];
    assert!(!view.copy_from_checked(&mut mem, &short));
    // The failed copy left the memory untouched.
    assert_eq!(view.get(&mem, 0), 0);
}

#[test]
fn subarray_bounds() {
    // subarray(s, e) on a view of length L succeeds iff s <= e < L.
    let mem = Memory::new(1);
    let view = MemoryView::new(&mem, 0, 100);
    assert!(view.subarray_checked(0, 50).is_some());
    assert!(view.subarray_checked(50, 99).is_some());
    assert!(view.subarray_checked(7, 7).is_some());
    assert!(view.subarray_checked(0, 100).is_none()); // e == L
    assert!(view.subarray_checked(60, 40).is_none()); // s > e
    assert!(view.subarray_checked(101, 102).is_none()); // both past the end
    let sub = view.subarray_checked(10, 30).unwrap();
    assert_eq!(sub.len(), 20);
}

#[test]
fn subarray_windows_into_parent() {
    let mut mem = Memory::new(1);
    let view = MemoryView::new(&mem, 0, 100);
    let sub = view.subarray(10, 30);
    sub.set(&mut mem, 0, 0xAB);
    assert_eq!(view.get(&mem, 10), 0xAB);
    assert_eq!(view.get(&mem, 9), 0);
}

#[test]
fn offset_view_copies_into_its_range_only() {
    let mut mem = Memory::new(1);
    let view = MemoryView::new(&mem, 16, 4);
    let src = vec![1u8, 2, 3, 4];
    view.copy_from(&mut mem, &src);
    let whole = MemoryView::new(&mem, 0, 65536);
    assert_eq!(whole.get(&mem, 15), 0);
    assert_eq!(whole.get(&mem, 16), 1);
    assert_eq!(whole.get(&mem, 19), 4);
    assert_eq!(whole.get(&mem, 20), 0);
}

#[test]
fn atomic_overlay_covers_same_range() {
    let mut mem = Memory::new(1);
    let view = MemoryView::new(&mem, 8, 16);
    let atomic = view.atomically();
    assert_eq!(atomic.len(), 16);
    atomic.store(&mut mem, 0, 0x5A);
    assert_eq!(view.get(&mem, 0), 0x5A);
    view.set(&mut mem, 1, 0x42);
    assert_eq!(atomic.load(&mem, 1), 0x42);
}
