use serial_arbiter::{CollectKind, Worker};

#[test]
fn receive_everything_round_trip() {
    let mut w = Worker::new();
    w.stage(b"Hello world\n");
    let got = w.collect_received(None);
    assert_eq!(got, Some(b"Hello world\n".to_vec()));
    // Nothing stays staged: the next idle receive has no payload.
    assert_eq!(w.collect_received(None), None);
}

#[test]
fn delimited_round_trip_empties_staging() {
    let mut w = Worker::new();
    w.stage(b"{\"ok\":true}\n");
    let got = w.collect_received(Some(0x0a));
    assert_eq!(got, Some(b"{\"ok\":true}\n".to_vec()));
    assert_eq!(w.staged_len(), 0);
}

#[test]
fn fast_path_hit_slices_through_delimiter() {
    let mut w = Worker::new();
    w.stage(b"ab\ncd");
    let got = w.receive_fast_path(Some(0x0a));
    assert_eq!(got, Some(b"ab\n".to_vec()));
    // The bytes after the delimiter stay staged for the next receive.
    assert_eq!(w.collect_received(None), Some(b"cd".to_vec()));
}

#[test]
fn fast_path_without_delimiter_takes_nothing() {
    let mut w = Worker::new();
    w.stage(b"abc");
    assert_eq!(w.receive_fast_path(None), None);
    assert_eq!(w.staged_len(), 3);
}

#[test]
fn fast_path_miss_takes_nothing() {
    let mut w = Worker::new();
    w.stage(b"cd");
    assert_eq!(w.receive_fast_path(Some(0x0a)), None);
    assert_eq!(w.staged_len(), 2);
}

#[test]
fn post_drain_collect_without_delimiter_found_takes_everything() {
    let mut w = Worker::new();
    w.stage(b"cd");
    // Unlike the fast path, after the syscall budget was spent the caller
    // receives whatever was collected.
    assert_eq!(w.collect_received(Some(0x0a)), Some(b"cd".to_vec()));
    assert_eq!(w.staged_len(), 0);
}

#[test]
fn clear_then_receive_yields_none() {
    let mut w = Worker::new();
    w.stage(b"stale");
    w.clear_staging();
    assert_eq!(w.collect_received(None), None);
    assert_eq!(w.collect_received(Some(0x0a)), None);
}

#[test]
fn successive_receives_concatenate_in_wire_order() {
    let mut w = Worker::new();
    w.stage(b"one\ntwo\nthree");
    let mut all = Vec::new();
    all.extend(w.collect_received(Some(0x0a)).unwrap());
    all.extend(w.collect_received(Some(0x0a)).unwrap());
    all.extend(w.collect_received(None).unwrap());
    assert_eq!(all, b"one\ntwo\nthree".to_vec());
}

#[test]
fn collect_until_or_nothing_via_kind() {
    let mut w = Worker::new();
    w.stage(b"xy\nz");
    assert_eq!(
        w.collect_from_buff(CollectKind::UntilOrNothing(b'q')),
        None
    );
    assert_eq!(
        w.collect_from_buff(CollectKind::UntilOrNothing(0x0a)),
        Some(b"xy\n".to_vec())
    );
    assert_eq!(
        w.collect_from_buff(CollectKind::Everything),
        Some(b"z".to_vec())
    );
}

#[test]
fn collect_count_boundaries() {
    let mut w = Worker::new();
    assert_eq!(w.collect_from_buff_count(3), None);
    w.stage(b"abcd");
    assert_eq!(w.collect_from_buff_count(2), Some(b"ab".to_vec()));
    // Asking for at least as much as is staged takes everything.
    assert_eq!(w.collect_from_buff_count(10), Some(b"cd".to_vec()));
    assert_eq!(w.collect_from_buff_count(10), None);
}

#[test]
fn collect_everything_empty_is_none() {
    let mut w = Worker::new();
    assert_eq!(w.collect_from_buff_everything(), None);
    w.stage(b"a");
    assert_eq!(w.collect_from_buff_everything(), Some(b"a".to_vec()));
}

#[test]
fn delimiter_probe_matches_staging() {
    let mut w = Worker::new();
    w.stage(b"abc\n");
    assert!(w.contains_delimiter(Some(0x0a)));
    assert!(!w.contains_delimiter(Some(b'z')));
    assert!(!w.contains_delimiter(None));
}

#[test]
fn large_receive_in_one_reply() {
    let mut w = Worker::new();
    let payload = vec![0xABu8; 1 << 20];
    w.stage(payload.as_slice());
    let got = w.collect_received(None).unwrap();
    assert_eq!(got.len(), 1 << 20);
    assert_eq!(got, payload);
    assert_eq!(w.staged_len(), 0);
}

#[test]
fn staging_keeps_arrival_order_across_chunks() {
    let mut w = Worker::new();
    w.stage(b"first ");
    w.stage(b"second");
    assert_eq!(w.collect_received(None), Some(b"first second".to_vec()));
}

#[test]
fn position_of_finds_first_occurrence() {
    assert_eq!(serial_arbiter::position_of(&b"abcabc".to_vec(), b'b'), Some(1));
    assert_eq!(serial_arbiter::position_of(&b"abc".to_vec(), b'z'), None);
    assert_eq!(serial_arbiter::position_of(&Vec::new(), b'a'), None);
}
