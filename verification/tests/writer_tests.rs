use file_merger::timestamp::{format_timestamp, local_timestamp, Timestamp};
use file_merger::writer::{
    default_name, resolve_destination, validate_destination, DestinationCheck,
};

fn ts(year: i32, month: u32, day: u32, hour: u32, minute: u32, second: u32) -> Timestamp {
    Timestamp::new(year, month, day, hour, minute, second).unwrap()
}

#[test]
fn timestamp_fields_are_range_checked() {
    assert!(Timestamp::new(2025, 8, 27, 14, 3, 9).is_some());
    assert!(Timestamp::new(10000, 8, 27, 14, 3, 9).is_none());
    assert!(Timestamp::new(-1, 8, 27, 14, 3, 9).is_none());
    assert!(Timestamp::new(2025, 0, 27, 14, 3, 9).is_none());
    assert!(Timestamp::new(2025, 13, 27, 14, 3, 9).is_none());
    assert!(Timestamp::new(2025, 8, 0, 14, 3, 9).is_none());
    assert!(Timestamp::new(2025, 8, 32, 14, 3, 9).is_none());
    assert!(Timestamp::new(2025, 8, 27, 24, 3, 9).is_none());
    assert!(Timestamp::new(2025, 8, 27, 14, 60, 9).is_none());
    assert!(Timestamp::new(2025, 8, 27, 14, 3, 60).is_none());
}

#[test]
fn timestamp_format_is_fixed_width_zero_padded() {
    assert_eq!(format_timestamp(&ts(2025, 8, 27, 14, 3, 9)), "27_08_2025_14_03_09");
    assert_eq!(format_timestamp(&ts(7, 12, 1, 0, 0, 0)), "01_12_0007_00_00_00");
}

#[test]
fn clock_yields_a_formattable_timestamp() {
    let now = local_timestamp().expect("the clock year fits four digits");
    let rendered = format_timestamp(&now);
    assert_eq!(rendered.len(), 19);
    for (i, c) in rendered.chars().enumerate() {
        if i == 2 || i == 5 || i == 10 || i == 13 || i == 16 {
            assert_eq!(c, '_');
        } else {
            assert!(c.is_ascii_digit());
        }
    }
}

#[test]
fn empty_name_takes_timestamped_default_in_working_directory() {
    let t = ts(2025, 8, 27, 14, 3, 9);
    assert_eq!(default_name(&t), "merged_file-27_08_2025_14_03_09");
    assert_eq!(
        resolve_destination("", "/work", &t),
        "/work/merged_file-27_08_2025_14_03_09"
    );
}

#[test]
fn bare_name_resolves_under_working_directory() {
    let t = ts(2025, 8, 27, 14, 3, 9);
    assert_eq!(resolve_destination("out.bin", "/work", &t), "/work/out.bin");
}

#[test]
fn name_with_separator_is_a_literal_path() {
    let t = ts(2025, 8, 27, 14, 3, 9);
    assert_eq!(resolve_destination("sub/out.bin", "/work", &t), "sub/out.bin");
    assert_eq!(resolve_destination("C:\\tmp\\out.bin", "/work", &t), "C:\\tmp\\out.bin");
    assert_eq!(resolve_destination("/abs/out.bin", "/work", &t), "/abs/out.bin");
}

#[test]
fn existing_paths_are_rejected_whether_file_or_directory() {
    assert_eq!(validate_destination(true, true), DestinationCheck::IsDirectory);
    assert_eq!(validate_destination(true, false), DestinationCheck::IsDirectory);
    assert_eq!(validate_destination(false, true), DestinationCheck::AlreadyExists);
    assert_eq!(validate_destination(false, false), DestinationCheck::Accepted);
}
