use openvr::text::{terminated_text, text_before_nul};

#[test]
fn text_before_nul_stops_at_the_first_zero() {
    assert_eq!(text_before_nul(b"Root\0\0\0\0".to_vec()), Some(b"Root".to_vec()));
    assert_eq!(text_before_nul(b"a\0b\0".to_vec()), Some(b"a".to_vec()));
    assert_eq!(text_before_nul(b"\0rest".to_vec()), Some(Vec::new()));
}

#[test]
fn text_before_nul_needs_a_terminator() {
    assert_eq!(text_before_nul(b"unterminated".to_vec()), None);
    assert_eq!(text_before_nul(Vec::new()), None);
}

#[test]
fn terminated_text_of_the_empty_reply_is_the_terminator() {
    assert_eq!(terminated_text(Vec::new()), vec![0u8]);
}

#[test]
fn terminated_text_keeps_a_terminated_reply() {
    assert_eq!(terminated_text(b"text\0".to_vec()), b"text\0".to_vec());
    assert_eq!(terminated_text(vec![0u8]), vec![0u8]);
}

#[test]
fn terminated_text_stops_at_the_first_zero() {
    assert_eq!(terminated_text(b"key\0\0\0\0".to_vec()), b"key\0".to_vec());
    assert_eq!(terminated_text(b"a\0b\0".to_vec()), b"a\0".to_vec());
    assert_eq!(terminated_text(b"\0rest".to_vec()), vec![0u8]);
    assert_eq!(terminated_text(vec![0u8; 128]), vec![0u8]);
}

#[test]
fn terminated_text_adds_a_missing_terminator() {
    assert_eq!(terminated_text(b"open".to_vec()), b"open\0".to_vec());
    assert_eq!(terminated_text(vec![b'x'; 3]), b"xxx\0".to_vec());
}

#[test]
fn terminated_text_holds_one_zero_byte_and_ends_with_it() {
    let samples: [&[u8]; 6] = [b"", b"\0", b"name", b"name\0", b"na\0me\0", b"\0\0"];
    for sample in samples {
        let text = terminated_text(sample.to_vec());
        assert_eq!(text.last(), Some(&0u8));
        assert_eq!(text.iter().filter(|b| **b == 0).count(), 1);
        assert!(sample.starts_with(&text[..text.len() - 1]));
        assert!(text.len() - 1 == sample.len() || sample[text.len() - 1] == 0);
    }
}
