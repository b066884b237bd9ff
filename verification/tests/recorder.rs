use history_ring::recorder::Recorder;

#[test]
fn counter_counts_each_push() {
    let mut rec = Recorder::new();
    assert_eq!(rec.history_count(), 0);
    for i in 0..5u8 {
        rec.history_push(&[i + 1]);
        assert_eq!(rec.history_count(), (i + 1) as u64);
    }
}

#[test]
fn empty_push_is_a_complete_noop() {
    let mut rec = Recorder::new();
    rec.history_push(b"first");
    rec.history_push(b"second");
    let entries_before = rec.history.entries.clone();
    let lens_before = rec.history.lens.clone();
    let head_before = rec.history.head;
    let count_before = rec.history.count;

    rec.history_push(b"");

    assert_eq!(rec.history_count(), 2);
    assert_eq!(rec.history.entries, entries_before);
    assert_eq!(rec.history.lens, lens_before);
    assert_eq!(rec.history.head, head_before);
    assert_eq!(rec.history.count, count_before);
}

#[test]
fn seventeen_pushes_of_a() {
    let mut rec = Recorder::new();
    for _ in 0..17 {
        rec.history_push(b"a");
    }
    assert_eq!(rec.history_count(), 17);
    assert_eq!(rec.history.count, 16);
    let head = rec.history.head;
    assert_eq!(head, 1);
    for j in 0..16 {
        assert_eq!(rec.history.lens[j], 1);
        assert_eq!(rec.history.entries[j][0], b'a');
        for k in 1..64 {
            assert_eq!(rec.history.entries[j][k], 0);
        }
    }
    // Every pushed event was the same, so the newest slot (just before the
    // head) and the oldest retained slot (at the head) hold equal content.
    let newest = (head + 15) % 16;
    assert_eq!(rec.history.entries[newest], rec.history.entries[head]);
    assert_eq!(rec.history.lens[newest], rec.history.lens[head]);
}

#[test]
fn ring_retains_exactly_the_last_sixteen() {
    let mut rec = Recorder::new();
    for i in 0..20u8 {
        rec.history_push(&[i, i, i]);
    }
    assert_eq!(rec.history_count(), 20);
    assert_eq!(rec.history.count, 16);
    // Push number i (counting from zero) lands in slot i mod 16, so the
    // last sixteen pushes, numbers 4 through 19, fill the ring.
    for i in 4..20usize {
        let slot = i % 16;
        assert_eq!(rec.history.lens[slot], 3);
        assert_eq!(&rec.history.entries[slot][..3], &[i as u8, i as u8, i as u8]);
    }
    // The oldest retained push sits at the head, the newest just before it.
    let head = rec.history.head;
    assert_eq!(head, 20 % 16);
    assert_eq!(rec.history.entries[head][0], 4);
    assert_eq!(rec.history.entries[(head + 15) % 16][0], 19);
}
