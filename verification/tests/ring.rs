use history_ring::ring::History;

#[test]
fn new_ring_is_zeroed_and_empty() {
    let h = History::new();
    assert_eq!(h.head, 0);
    assert_eq!(h.count, 0);
    assert_eq!(h.entries.len(), 16);
    assert_eq!(h.lens.len(), 16);
    for j in 0..16 {
        assert_eq!(h.lens[j], 0);
        assert_eq!(h.entries[j].len(), 64);
        assert!(h.entries[j].iter().all(|&b| b == 0));
    }
}

#[test]
fn push_records_event_and_advances_head() {
    let mut h = History::new();
    h.push(b"hello");
    assert_eq!(h.head, 1);
    assert_eq!(h.count, 1);
    assert_eq!(h.lens[0], 5);
    assert_eq!(&h.entries[0][..5], b"hello");
    for k in 5..64 {
        assert_eq!(h.entries[0][k], 0);
    }
}

#[test]
fn hundred_byte_event_is_truncated_to_sixty_three() {
    let mut h = History::new();
    let event: Vec<u8> = (1..=100u8).collect();
    h.push(&event);
    assert_eq!(h.lens[0], 63);
    assert_eq!(&h.entries[0][..63], &event[..63]);
    assert_eq!(h.entries[0][63], 0);
}

#[test]
fn sixty_three_byte_event_is_stored_whole() {
    let mut h = History::new();
    let event: Vec<u8> = (1..=63u8).collect();
    h.push(&event);
    assert_eq!(h.lens[0], 63);
    assert_eq!(&h.entries[0][..63], &event[..]);
    assert_eq!(h.entries[0][63], 0);
}

#[test]
fn push_overwrites_stale_slot_completely() {
    let mut h = History::new();
    h.push(&[9u8; 60]);
    // Sixteen more pushes bring the head back around to slot 0.
    for _ in 0..16 {
        h.push(b"x");
    }
    assert_eq!(h.head, 1);
    assert_eq!(h.lens[0], 1);
    assert_eq!(h.entries[0][0], b'x');
    for k in 1..64 {
        assert_eq!(h.entries[0][k], 0);
    }
}

#[test]
fn count_saturates_at_sixteen() {
    let mut h = History::new();
    for i in 0..40u8 {
        h.push(&[i]);
        let expected = if (i as usize) < 15 { i as usize + 1 } else { 16 };
        assert_eq!(h.count, expected);
    }
    assert_eq!(h.head, 40 % 16);
}
