use rusty_fork::marker::CompletionMarker;

#[test]
fn created_marker_is_empty_and_absent() {
    let marker = CompletionMarker::create();
    assert!(marker.contents.is_empty());
    assert!(!marker.read_marker());
}

#[test]
fn written_marker_holds_the_payload_and_is_present() {
    let mut marker = CompletionMarker::create();
    marker.write_marker();
    assert_eq!(marker.contents, b"done\n".to_vec());
    assert!(marker.read_marker());
}

#[test]
fn writing_twice_leaves_the_payload_once() {
    let mut marker = CompletionMarker::create();
    marker.write_marker();
    marker.write_marker();
    assert_eq!(marker.contents, b"done\n".to_vec());
    assert!(marker.read_marker());
}

#[test]
fn writing_replaces_what_was_there() {
    let mut marker = CompletionMarker::from_contents(b"garbage".to_vec());
    assert!(!marker.read_marker());
    marker.write_marker();
    assert!(marker.read_marker());
}

#[test]
fn marker_read_back_from_a_file_is_present() {
    assert!(CompletionMarker::from_contents(b"done\n".to_vec()).read_marker());
}

#[test]
fn incomplete_or_other_contents_are_absent() {
    assert!(!CompletionMarker::from_contents(Vec::new()).read_marker());
    assert!(!CompletionMarker::from_contents(b"done".to_vec()).read_marker());
    assert!(!CompletionMarker::from_contents(b"d".to_vec()).read_marker());
    assert!(!CompletionMarker::from_contents(b"done\n\n".to_vec()).read_marker());
    assert!(!CompletionMarker::from_contents(b"DONE\n".to_vec()).read_marker());
    assert!(!CompletionMarker::from_contents(b"dong\n".to_vec()).read_marker());
    assert!(!CompletionMarker::from_contents(b"xone\n".to_vec()).read_marker());
}
