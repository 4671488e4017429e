use openvr::marshal::{buffer, decode, measure, until_nul, MarshaledString, QueryStep, StringQuery};

#[test]
fn measure_stops_at_first_nul() {
    assert_eq!(measure(b"abc\0def\0"), 3);
    assert_eq!(measure(b"\0abc"), 0);
    assert_eq!(measure(b""), 0);
}

#[test]
fn measure_stops_at_end_of_buffer_without_nul() {
    assert_eq!(measure(b"abcd"), 4);
}

#[test]
fn until_nul_ignores_what_follows_the_terminator() {
    assert_eq!(until_nul(b"key\0garbage"), b"key".to_vec());
    assert_eq!(until_nul(b"full"), b"full".to_vec());
}

#[test]
fn decode_every_length_up_to_capacity() {
    let capacity = 16usize;
    for len in 0..=capacity {
        let mut buf = buffer(capacity as u32);
        for i in 0..len {
            buf[i] = b'a' + (i as u8 % 26);
        }
        let text = decode(&buf).expect("ascii is utf-8");
        assert_eq!(text.len(), len);
        assert_eq!(text.as_bytes(), &buf[..len]);
    }
}

#[test]
fn decode_rejects_invalid_utf8() {
    assert_eq!(decode(&[0xff, 0xfe, 0]), None);
    assert_eq!(decode(&[0xc3, 0xa9, 0, 0xff]), Some(String::from("\u{e9}")));
}

#[test]
fn buffer_is_zeroed() {
    let b = buffer(128);
    assert_eq!(b.len(), 128);
    assert!(b.iter().all(|&x| x == 0));
    assert_eq!(buffer(0).len(), 0);
}

#[test]
fn marshaled_string_is_terminated() {
    let s = MarshaledString::new("system.generated").unwrap();
    assert_eq!(s.as_bytes_with_nul(), b"system.generated\0");
    assert_eq!(s.len(), 16);
    let empty = MarshaledString::new("").unwrap();
    assert_eq!(empty.as_bytes_with_nul(), b"\0");
    assert_eq!(empty.len(), 0);
}

#[test]
fn embedded_nul_is_rejected() {
    let err = MarshaledString::new("ab\0cd").unwrap_err();
    assert_eq!(err.nul_position(), 2);
    assert_eq!(MarshaledString::new("\0").unwrap_err().nul_position(), 0);
    assert_eq!(MarshaledString::new("trailing\0").unwrap_err().nul_position(), 8);
    assert_eq!(MarshaledString::from_bytes(b"a\0b\0").unwrap_err().nul_position(), 1);
}

#[test]
fn embedded_nul_is_rejected_at_every_position() {
    for at in 0..8usize {
        let mut bytes = b"abcdefgh".to_vec();
        bytes[at] = 0;
        let err = MarshaledString::from_bytes(&bytes).unwrap_err();
        assert_eq!(err.nul_position(), at);
    }
}

#[test]
fn string_query_absent_makes_no_second_call() {
    let q = StringQuery::new();
    assert_eq!(q.capacity(), 0);
    assert!(matches!(q.reply(0, Vec::new()), QueryStep::Absent));
}

#[test]
fn string_query_fills_a_buffer_of_the_reported_size() {
    let q = StringQuery::new();
    let next = match q.reply(6, Vec::new()) {
        QueryStep::Again(next) => next,
        other => panic!("unexpected step {:?}", other),
    };
    assert_eq!(next.capacity(), 6);
    let storage = b"hello\0".to_vec();
    match next.reply(6, storage) {
        QueryStep::Text(text) => assert_eq!(text, b"hello".to_vec()),
        other => panic!("unexpected step {:?}", other),
    }
}

#[test]
fn string_query_mismatch_is_a_fault() {
    let next = match StringQuery::new().reply(6, Vec::new()) {
        QueryStep::Again(next) => next,
        other => panic!("unexpected step {:?}", other),
    };
    assert!(matches!(next.reply(5, b"hello\0".to_vec()), QueryStep::Fault));
    assert!(matches!(next.reply(0, b"hello\0".to_vec()), QueryStep::Fault));
    assert!(matches!(next.reply(6, b"hell\0".to_vec()), QueryStep::Fault));
}

#[test]
fn string_query_of_one_byte_is_the_empty_text() {
    let next = match StringQuery::new().reply(1, Vec::new()) {
        QueryStep::Again(next) => next,
        other => panic!("unexpected step {:?}", other),
    };
    match next.reply(1, vec![0]) {
        QueryStep::Text(text) => assert!(text.is_empty()),
        other => panic!("unexpected step {:?}", other),
    }
}
