use rogcat::rotate::{filename_for, parse_size, FilenameFormat, RotationState};

#[test]
fn rotation_distributes_250_records_over_three_files() {
    // records-per-file = 100, 250 accepted records: exactly 3 files, the
    // first two with exactly 100 records and the third with 50.
    let mut state = RotationState::new(Some(100));
    let mut finished_sizes: Vec<u64> = Vec::new();
    let mut in_current: u64 = 0;
    for _ in 0..250 {
        in_current += 1;
        if state.on_record() {
            finished_sizes.push(in_current);
            in_current = 0;
        }
    }
    assert_eq!(finished_sizes, [100, 100]);
    assert_eq!(state.files_finished, 2);
    assert_eq!(state.current_count, 50);
    // 3 files in all: two finished and the open third one
    assert_eq!(state.files_finished + 1, 3);
}

#[test]
fn rotation_disabled_never_rotates() {
    let mut state = RotationState::new(None);
    for _ in 0..1000 {
        assert!(!state.on_record());
    }
    assert_eq!(state.files_finished, 0);
}

#[test]
fn threshold_one_rotates_every_record() {
    let mut state = RotationState::new(Some(1));
    assert!(state.on_record());
    assert!(state.on_record());
    assert_eq!(state.files_finished, 2);
    assert_eq!(state.current_count, 0);
}

#[test]
fn enumerate_names_append_the_sequence_number() {
    assert_eq!(filename_for(FilenameFormat::Enumerate, "log.txt", 0, ""), "log.txt-0");
    assert_eq!(filename_for(FilenameFormat::Enumerate, "log.txt", 2, ""), "log.txt-2");
    assert_eq!(filename_for(FilenameFormat::Enumerate, "out", 150, ""), "out-150");
}

#[test]
fn single_names_reuse_the_base() {
    assert_eq!(filename_for(FilenameFormat::Single, "log.txt", 7, "2017-03-01"), "log.txt");
}

#[test]
fn date_names_carry_the_date_prefix() {
    assert_eq!(
        filename_for(FilenameFormat::Date, "log.txt", 0, "2017-03-01"),
        "2017-03-01-log.txt"
    );
}

#[test]
fn local_date_text_is_a_date() {
    let d = rogcat::rotate::local_date_text();
    let chars: Vec<char> = d.chars().collect();
    assert_eq!(chars.len(), 10);
    assert_eq!(chars[4], '-');
    assert_eq!(chars[7], '-');
    for i in [0, 1, 2, 3, 5, 6, 8, 9] {
        assert!(chars[i].is_ascii_digit());
    }
}

#[test]
fn format_date_pads_fields() {
    assert_eq!(rogcat::rotate::format_date(2017, 3, 1), "2017-03-01");
    assert_eq!(rogcat::rotate::format_date(7, 12, 31), "0007-12-31");
}

#[test]
fn sizes_parse_with_and_without_suffixes() {
    assert_eq!(parse_size("250"), Some(250));
    assert_eq!(parse_size("0"), Some(0));
    assert_eq!(parse_size("4k"), Some(4_000));
    assert_eq!(parse_size("1M"), Some(1_000_000));
    assert_eq!(parse_size("2G"), Some(2_000_000_000));
    assert_eq!(parse_size("18446744073709551615"), Some(u64::MAX));
}

#[test]
fn malformed_sizes_are_rejected() {
    assert_eq!(parse_size(""), None);
    assert_eq!(parse_size("k"), None);
    assert_eq!(parse_size("12x"), None);
    assert_eq!(parse_size("1.5k"), None);
    assert_eq!(parse_size("-1"), None);
    assert_eq!(parse_size("12 3"), None);
}

#[test]
fn oversized_values_are_rejected() {
    assert_eq!(parse_size("18446744073709551616"), None);
    assert_eq!(parse_size("18446744073709551615k"), None);
    assert_eq!(parse_size("99999999999999999999999"), None);
}
