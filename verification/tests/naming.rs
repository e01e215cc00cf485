use second::naming::recording_file_name;

#[test]
fn zero_timestamp_renders_a_single_zero() {
    assert_eq!(recording_file_name(0), "recording_0.wav");
}

#[test]
fn single_digit_timestamp() {
    assert_eq!(recording_file_name(7), "recording_7.wav");
}

#[test]
fn typical_unix_timestamp() {
    assert_eq!(recording_file_name(1_712_345_678), "recording_1712345678.wav");
}

#[test]
fn round_timestamp_keeps_inner_zeros() {
    assert_eq!(recording_file_name(1_700_000_000), "recording_1700000000.wav");
}

#[test]
fn largest_timestamp_renders_all_digits() {
    assert_eq!(recording_file_name(u64::MAX), "recording_18446744073709551615.wav");
}

#[test]
fn distinct_timestamps_give_distinct_names() {
    let a = recording_file_name(1_712_345_678);
    let b = recording_file_name(1_712_345_679);
    assert_ne!(a, b);
}
