use h2_server::progress::Progress;

#[test]
fn pending_source_has_no_value() {
    let waiting: Progress<u8> = Progress::Pending;
    assert!(waiting.is_pending());
    assert!(!waiting.is_ready());
    assert_eq!(waiting.ready(), None);
}

#[test]
fn finished_source_hands_its_value_on() {
    let done = Progress::Ready(7u8);
    assert!(done.is_ready());
    assert!(!done.is_pending());
    assert_eq!(done.ready(), Some(7));
}
