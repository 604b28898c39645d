use hotline::gfx::heap::{Heap, QueryHeap};

#[test]
fn fresh_slots_are_consecutive() {
    let mut heap = Heap::new(1000, 32, 3, 7);
    assert_eq!(heap.get_heap_id(), 7);
    // slot 0 is reserved
    assert_eq!(heap.allocate(), 1032);
    assert_eq!(heap.allocate(), 1064);
    assert_eq!(heap.allocate(), 1096);
    assert_eq!(heap.get_handle_index(1064), 2);
}

#[test]
fn freed_slot_is_reused_first() {
    let mut heap = Heap::new(0, 16, 8, 0);
    let a = heap.allocate();
    let b = heap.allocate();
    heap.deallocate(heap.get_handle_index(a));
    heap.deallocate(heap.get_handle_index(b));
    assert_eq!(heap.allocate(), b);
    assert_eq!(heap.allocate(), a);
    // the free list is empty again: the next untouched slot follows
    assert_eq!(heap.allocate(), 48);
}

#[test]
fn dropped_slots_wait_for_the_frames_in_flight() {
    let mut heap = Heap::new(0, 4, 16, 0);
    let a = heap.allocate();
    let b = heap.allocate();
    let c = heap.allocate();
    assert_eq!((a, b, c), (4, 8, 12));
    heap.push_drop(vec![heap.get_handle_index(a), heap.get_handle_index(b)]);
    heap.push_drop(vec![heap.get_handle_index(c)]);
    // the first cleanup only stamps the drops with the frame
    heap.cleanup_dropped_resources(10, 2);
    assert_eq!(heap.allocate(), 16);
    // two frames later not more than two frames have passed
    heap.cleanup_dropped_resources(12, 2);
    assert_eq!(heap.allocate(), 20);
    // three frames later the slots are free again, pushed in order, last freed reused first
    heap.cleanup_dropped_resources(13, 2);
    assert_eq!(heap.allocate(), 12);
    assert_eq!(heap.allocate(), 8);
    assert_eq!(heap.allocate(), 4);
    assert_eq!(heap.allocate(), 24);
}

#[test]
fn queries_are_handed_out_in_order() {
    let mut heap = QueryHeap::new(3);
    assert_eq!(heap.allocate(), 0);
    assert_eq!(heap.allocate(), 1);
    heap.reset();
    assert_eq!(heap.allocate(), 0);
}

#[test]
fn new_heap_hands_out_every_slot_once_in_order() {
    let mut heap = Heap::new(4096, 64, 5, 1);
    for k in 1..=5usize {
        let h = heap.allocate();
        assert_eq!(heap.get_handle_index(h), k);
    }
}

#[test]
fn two_freed_slots_come_back_last_freed_first() {
    let mut heap = Heap::new(0, 8, 10, 0);
    for _ in 0..4 {
        heap.allocate();
    }
    heap.deallocate(2);
    heap.deallocate(4);
    let first = heap.allocate();
    let second = heap.allocate();
    assert_eq!((heap.get_handle_index(first), heap.get_handle_index(second)), (4, 2));
    // then untouched slots again, after the four handed out before
    let next = heap.allocate();
    assert_eq!(heap.get_handle_index(next), 5);
}

#[test]
fn queries_count_up_from_zero_after_reset() {
    let mut heap = QueryHeap::new(4);
    let first: Vec<usize> = (0..4).map(|_| heap.allocate()).collect();
    assert_eq!(first, vec![0, 1, 2, 3]);
    heap.reset();
    let again: Vec<usize> = (0..3).map(|_| heap.allocate()).collect();
    assert_eq!(again, vec![0, 1, 2]);
}
