use sdbus::journal::{
    open_flags, previous_result, seek_call, split_field, Id128, JournalFiles, JournalSeek, SeekCall,
    SD_JOURNAL_CURRENT_USER, SD_JOURNAL_LOCAL_ONLY, SD_JOURNAL_RUNTIME_ONLY, SD_JOURNAL_SYSTEM,
};

#[test]
fn open_flags_combinations() {
    assert_eq!(open_flags(JournalFiles::All, false, false), 0);
    assert_eq!(open_flags(JournalFiles::System, false, false), SD_JOURNAL_SYSTEM);
    assert_eq!(open_flags(JournalFiles::CurrentUser, false, false), SD_JOURNAL_CURRENT_USER);
    assert_eq!(open_flags(JournalFiles::All, true, false), SD_JOURNAL_RUNTIME_ONLY);
    assert_eq!(open_flags(JournalFiles::All, false, true), SD_JOURNAL_LOCAL_ONLY);
    assert_eq!(
        open_flags(JournalFiles::System, true, true),
        SD_JOURNAL_SYSTEM | SD_JOURNAL_RUNTIME_ONLY | SD_JOURNAL_LOCAL_ONLY
    );
    assert_eq!(open_flags(JournalFiles::System, true, true), 7);
}

#[test]
fn split_field_at_first_equals() {
    let (name, value) = split_field(b"MESSAGE=hello world").unwrap();
    assert_eq!(name, b"MESSAGE".to_vec());
    assert_eq!(value, b"hello world".to_vec());

    // The split happens at the first `=`; later ones belong to the value.
    let (name, value) = split_field(b"A=b=c").unwrap();
    assert_eq!(name, b"A".to_vec());
    assert_eq!(value, b"b=c".to_vec());

    let (name, value) = split_field(b"EMPTY=").unwrap();
    assert_eq!(name, b"EMPTY".to_vec());
    assert_eq!(value, Vec::<u8>::new());

    assert!(split_field(b"NO_SEPARATOR").is_none());
    assert!(split_field(b"").is_none());
}

#[test]
fn seek_requests_map_to_their_calls() {
    assert!(matches!(seek_call(JournalSeek::Head), SeekCall::ToHead));
    assert!(matches!(seek_call(JournalSeek::Current), SeekCall::Stay));
    assert!(matches!(seek_call(JournalSeek::Tail), SeekCall::ToTail));

    let id = Id128::from_bytes([7u8; 16]);
    match seek_call(JournalSeek::ClockMonotonic { boot_id: id, usec: 99 }) {
        SeekCall::ToMonotonic { boot_id, usec } => {
            assert_eq!(boot_id.as_bytes(), &[7u8; 16]);
            assert_eq!(usec, 99);
        },
        _ => panic!("wrong seek call"),
    }

    match seek_call(JournalSeek::ClockRealtime { usec: 123 }) {
        SeekCall::ToRealtime { usec } => assert_eq!(usec, 123),
        _ => panic!("wrong seek call"),
    }

    match seek_call(JournalSeek::Cursor { cursor: String::from("c1") }) {
        SeekCall::ToCursor { cursor } => assert_eq!(cursor, "c1"),
        _ => panic!("wrong seek call"),
    }
}

#[test]
fn previous_result_maps_zero_to_none() {
    assert_eq!(previous_result(0), None);
    assert_eq!(previous_result(1), Some(1));
    assert_eq!(previous_result(7), Some(7));
}

#[test]
fn id128_round_trips_its_bytes() {
    let mut raw = [0u8; 16];
    for (i, b) in raw.iter_mut().enumerate() {
        *b = i as u8;
    }
    let id = Id128::from_bytes(raw);
    assert_eq!(id.as_bytes(), &raw);
}
