use openvr::reply::{grow_to, keep_reported, settle, some_if, zeroed};

#[test]
fn some_if_keeps_the_value_on_success() {
    assert_eq!(some_if(7u32, true), Some(7));
    assert_eq!(some_if("pose", true), Some("pose"));
}

#[test]
fn some_if_drops_the_value_on_failure() {
    assert_eq!(some_if(7u32, false), None);
}

#[test]
fn zeroed_has_the_length_asked_for() {
    assert_eq!(zeroed(0), Vec::<u8>::new());
    assert_eq!(zeroed(3), vec![0u8, 0, 0]);
    assert_eq!(zeroed(32 * 1024).len(), 32768);
}

#[test]
fn keep_reported_cuts_the_buffer() {
    let mut buffer = vec![1u8, 2, 3, 4];
    keep_reported(&mut buffer, 2);
    assert_eq!(buffer, vec![1, 2]);
}

#[test]
fn keep_reported_keeps_all_when_more_is_reported() {
    let mut buffer = vec![1u8, 2, 3, 4];
    keep_reported(&mut buffer, 9);
    assert_eq!(buffer, vec![1, 2, 3, 4]);
    keep_reported(&mut buffer, 4);
    assert_eq!(buffer, vec![1, 2, 3, 4]);
    keep_reported(&mut buffer, 0);
    assert_eq!(buffer, Vec::<u8>::new());
}

#[test]
fn grow_to_appends_the_fill() {
    let mut buffer = vec![5u32, 6];
    grow_to(&mut buffer, 5, 9);
    assert_eq!(buffer, vec![5, 6, 9, 9, 9]);
}

#[test]
fn grow_to_leaves_a_long_buffer_alone() {
    let mut buffer = vec![5u32, 6, 7];
    grow_to(&mut buffer, 2, 9);
    assert_eq!(buffer, vec![5, 6, 7]);
    grow_to(&mut buffer, 3, 9);
    assert_eq!(buffer, vec![5, 6, 7]);
}

#[test]
fn settle_is_done_when_the_answer_fits() {
    let mut indices = vec![3u32, 1, 2, 0];
    assert!(settle(&mut indices, 3, 0));
    assert_eq!(indices, vec![3, 1, 2]);
}

#[test]
fn settle_is_done_on_an_exact_fit() {
    let mut text = vec![b'o', b'k', 0];
    assert!(settle(&mut text, 3, 0));
    assert_eq!(text, vec![b'o', b'k', 0]);
}

#[test]
fn settle_grows_when_the_answer_does_not_fit() {
    let mut indices: Vec<u32> = Vec::new();
    assert!(!settle(&mut indices, 4, 0));
    assert_eq!(indices, vec![0, 0, 0, 0]);
    assert!(settle(&mut indices, 4, 0));
    assert_eq!(indices.len(), 4);
}

#[test]
fn settle_on_an_empty_answer() {
    let mut text: Vec<u8> = Vec::new();
    assert!(settle(&mut text, 0, 0));
    assert!(text.is_empty());
}
