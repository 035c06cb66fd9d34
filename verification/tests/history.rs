use siege::history::{push_evicting, push_trimming};
use std::collections::VecDeque;

#[test]
fn ring_buffer_keeps_newest_entries() {
    let mut q: VecDeque<u32> = VecDeque::new();
    for i in 0..30 {
        push_evicting(&mut q, i, 24);
        assert!(q.len() <= 24);
        assert_eq!(*q.back().unwrap(), i);
    }
    assert_eq!(q.len(), 24);
    assert_eq!(q.iter().copied().collect::<Vec<_>>(), (6..30).collect::<Vec<_>>());
}

#[test]
fn trimmed_list_keeps_newest_entries() {
    let mut markers: Vec<u32> = Vec::new();
    for i in 0..10 {
        push_trimming(&mut markers, i, 6);
    }
    assert_eq!(markers, vec![4, 5, 6, 7, 8, 9]);
    let mut ranges: Vec<u32> = vec![1, 2];
    push_trimming(&mut ranges, 3, 3);
    assert_eq!(ranges, vec![1, 2, 3]);
    push_trimming(&mut ranges, 4, 3);
    assert_eq!(ranges, vec![2, 3, 4]);
}

#[test]
fn zero_cap_ring_holds_only_the_newest() {
    let mut q: VecDeque<u8> = VecDeque::new();
    push_evicting(&mut q, 1, 0);
    push_evicting(&mut q, 2, 0);
    assert_eq!(q.iter().copied().collect::<Vec<_>>(), vec![2]);
}
