use remoterm::args::decode_args;
use remoterm::args::encode_args;
use remoterm::payload::can_encode;
use remoterm::payload::decode_payload;
use remoterm::payload::encode_payload;
use remoterm::session_id::new_session_id;
use remoterm::session_id::session_id_from;
use remoterm::session_id::session_id_text;
use remoterm::text::copy_texts;
use remoterm::text::is_blank;
use remoterm::text::same_text;
use remoterm::timestamp::Timestamp;

#[test]
fn white_space_is_what_trimming_takes_away() {
    for code in 0..=0x10ffff_u32 {
        if let Some(c) = char::from_u32(code) {
            let text = c.to_string();
            assert_eq!(is_blank(&text), text.trim().is_empty(), "{code:x}");
        }
    }
}

#[test]
fn blank_texts() {
    assert!(is_blank(""));
    assert!(is_blank(" \t\r\n\u{a0}\u{3000}"));
    assert!(!is_blank(" x "));
    assert!(!is_blank("\u{200b}"));
}

#[test]
fn texts_are_the_same_only_if_equal() {
    assert!(same_text("running", "running"));
    assert!(!same_text("running", "Running"));
    assert!(!same_text("running", "runnin"));
}

#[test]
fn copied_texts_are_equal() {
    let list = vec!["a".to_string(), String::new(), "ü".to_string()];
    assert_eq!(copy_texts(&list), list);
}

#[test]
fn identifier_text_is_hyphenated() {
    let id = 0x0123_4567_89ab_cdef_0123_4567_89ab_cdef_u128;
    assert_eq!(session_id_text(id), "01234567-89ab-cdef-0123-456789abcdef");
    assert_eq!(session_id_text(0), "00000000-0000-0000-0000-000000000000");
    assert_eq!(session_id_text(u128::MAX), "ffffffff-ffff-ffff-ffff-ffffffffffff");
}

#[test]
fn identifier_reads_back() {
    let id = 0xa1a2_a3a4_b1b2_c1c2_d1d2_d3d4_d5d6_d7d8_u128;
    assert_eq!(session_id_from(&session_id_text(id)), Ok(id));
    assert_eq!(session_id_from("A1A2A3A4-B1B2-C1C2-D1D2-D3D4D5D6D7D8"), Ok(id));
    assert_eq!(session_id_from("a1a2a3a4b1b2c1c2d1d2d3d4d5d6d7d8"), Ok(id));
    let reason = session_id_from("g1a2a3a4-b1b2-c1c2-d1d2-d3d4d5d6d7d8").unwrap_err();
    assert_eq!(
        reason,
        uuid::Uuid::parse_str("g1a2a3a4-b1b2-c1c2-d1d2-d3d4d5d6d7d8").unwrap_err().to_string()
    );
    assert!(session_id_from("a1a2a3a4").is_err());
    assert!(session_id_from("").is_err());
}

#[test]
fn fresh_identifiers_are_random_uuids() {
    let a = new_session_id();
    let b = new_session_id();
    assert_ne!(a, b);
    for id in [a, b] {
        let text = session_id_text(id);
        assert_eq!(text.as_bytes()[14], b'4');
        assert!(matches!(text.as_bytes()[19], b'8' | b'9' | b'a' | b'b'));
    }
}

#[test]
fn instants_are_written_in_utc() {
    let t = Timestamp::new(1_700_000_000, 0).unwrap();
    assert_eq!(t.to_rfc3339(), "2023-11-14T22:13:20+00:00");
    let t = Timestamp::new(0, 123_456_789).unwrap();
    assert_eq!(t.to_rfc3339(), "1970-01-01T00:00:00.123456789+00:00");
    let t = Timestamp::new(-1, 500_000_000).unwrap();
    assert_eq!(t.to_rfc3339(), "1969-12-31T23:59:59.500+00:00");
}

#[test]
fn instants_read_back() {
    let cases = [
        (1_700_000_000, 0),
        (0, 1),
        (59, 1_500_000_000),
        (-62_167_219_200, 0),
        (253_402_300_799, 999_999_999),
        (-1, 999_999_999),
    ];
    for (secs, nanos) in cases {
        let t = Timestamp::new(secs, nanos).unwrap();
        assert_eq!(Timestamp::from_rfc3339(&t.to_rfc3339()), Ok(t));
    }
}

#[test]
fn instants_are_taken_to_utc() {
    let t = Timestamp::from_rfc3339("2023-11-15T00:13:20.25+02:00").unwrap();
    assert_eq!((t.secs, t.nanos), (1_700_000_000, 250_000_000));
    assert_eq!(
        Timestamp::from_rfc3339("2023-11-15"),
        Err("premature end of input".to_string())
    );
    assert_eq!(
        Timestamp::from_rfc3339("2023-11-15 at noon, or so"),
        Err("input contains invalid characters".to_string())
    );
    assert!(Timestamp::from_rfc3339("").is_err());
}

#[test]
fn leap_seconds_end_a_minute() {
    assert!(Timestamp::new(59, 1_000_000_000).is_some());
    assert!(Timestamp::new(-1, 1_999_999_999).is_some());
    assert!(Timestamp::new(58, 1_000_000_000).is_none());
    assert!(Timestamp::new(59, 2_000_000_000).is_none());
    assert_eq!(
        Timestamp::new(59, 1_000_000_000).unwrap().to_rfc3339(),
        "1970-01-01T00:00:60+00:00"
    );
}

#[test]
fn instants_have_bounds() {
    let first = Timestamp::new(-8_334_601_228_800, 0).unwrap();
    let last = Timestamp::new(8_210_266_876_799, 999_999_999).unwrap();
    assert!(Timestamp::new(-8_334_601_228_801, 0).is_none());
    assert!(Timestamp::new(8_210_266_876_800, 0).is_none());
    assert_eq!(first.to_rfc3339(), "-262143-01-01T00:00:00+00:00");
    assert_eq!(last.to_rfc3339(), "+262142-12-31T23:59:59.999999999+00:00");
    assert!(Timestamp::from_rfc3339(&last.to_rfc3339()).is_err());
}

#[test]
fn instants_are_ordered() {
    let a = Timestamp::new(10, 5).unwrap();
    let b = Timestamp::new(10, 6).unwrap();
    let c = Timestamp::new(11, 0).unwrap();
    assert!(a.is_before(&b) && b.is_before(&c) && a.is_before(&c));
    assert!(!b.is_before(&a) && !c.is_before(&a));
    assert!(!a.is_before(&a));
}

#[test]
fn the_clock_gives_instants_of_this_age() {
    let now = Timestamp::now();
    assert!(now.secs > 1_600_000_000 && now.secs < 253_402_300_800);
    assert!(now.nanos < 1_000_000_000);
    assert_eq!(Timestamp::new(now.secs, now.nanos), Some(now));
}

#[test]
fn payloads_are_padded_base64() {
    assert_eq!(encode_payload(&b"".to_vec()), "");
    assert_eq!(encode_payload(&b"f".to_vec()), "Zg==");
    assert_eq!(encode_payload(&b"fo".to_vec()), "Zm8=");
    assert_eq!(encode_payload(&b"foobar".to_vec()), "Zm9vYmFy");
    assert_eq!(encode_payload(&vec![0xfb, 0xff, 0xfe]), "+//+");
}

#[test]
fn payloads_read_back() {
    let data: Vec<u8> = (0..=255).collect();
    assert_eq!(decode_payload(&encode_payload(&data)), Some(data));
    assert_eq!(decode_payload("aGk="), Some(b"hi".to_vec()));
    assert_eq!(decode_payload("aGk"), None);
    assert_eq!(decode_payload("-_-_"), None);
    assert_eq!(decode_payload("not base64!"), None);
}

#[test]
fn payloads_have_a_longest() {
    assert!(can_encode(0));
    assert!(can_encode(8192));
    assert!(!can_encode(usize::MAX));
    let longest = isize::MAX as usize / 4 * 3;
    assert!(can_encode(longest));
    assert!(!can_encode(longest + 1));
}

#[test]
fn argument_lists_are_json() {
    assert_eq!(encode_args(&Vec::new()), "[]");
    let list = vec!["-c".to_string(), "echo \"hi\"\n".to_string()];
    assert_eq!(encode_args(&list), "[\"-c\",\"echo \\\"hi\\\"\\n\"]");
}

#[test]
fn argument_lists_read_back() {
    let list = vec!["-l".to_string(), "ü\u{1}\\".to_string(), String::new()];
    assert_eq!(decode_args(&encode_args(&list)), Ok(list));
    assert_eq!(decode_args(" [ \"a\" ] "), Ok(vec!["a".to_string()]));
    assert!(decode_args("{}").is_err());
    assert!(decode_args("[1]").is_err());
    assert_eq!(
        decode_args(""),
        Err("EOF while parsing a value at line 1 column 0".to_string())
    );
}
