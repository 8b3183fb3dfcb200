use yaml::parser::{handle_reader_cb, YamlReadError, YamlReadReply};

#[test]
fn test_bytes_read_are_reported() {
    assert_eq!(YamlReadReply { status: 1, size_read: Some(9) }, handle_reader_cb(Ok(9), 16384));
    assert_eq!(YamlReadReply { status: 1, size_read: Some(1) }, handle_reader_cb(Ok(1), 1));
}

#[test]
fn test_a_full_buffer_is_reported() {
    assert_eq!(
        YamlReadReply { status: 1, size_read: Some(16384) },
        handle_reader_cb(Ok(16384), 16384)
    );
}

#[test]
fn test_no_bytes_read_is_success_with_zero() {
    assert_eq!(YamlReadReply { status: 1, size_read: Some(0) }, handle_reader_cb(Ok(0), 16384));
    assert_eq!(YamlReadReply { status: 1, size_read: Some(0) }, handle_reader_cb(Ok(0), 0));
}

#[test]
fn test_end_of_file_is_success_with_zero() {
    assert_eq!(
        YamlReadReply { status: 1, size_read: Some(0) },
        handle_reader_cb(Err(YamlReadError::EndOfFile), 16384)
    );
}

#[test]
fn test_other_failure_is_failure() {
    assert_eq!(
        YamlReadReply { status: 0, size_read: None },
        handle_reader_cb(Err(YamlReadError::OtherIoError), 16384)
    );
}

#[test]
fn test_more_bytes_than_the_buffer_holds_is_failure() {
    assert_eq!(YamlReadReply { status: 0, size_read: None }, handle_reader_cb(Ok(17), 16));
    assert_eq!(YamlReadReply { status: 0, size_read: None }, handle_reader_cb(Ok(1), 0));
    assert_eq!(
        YamlReadReply { status: 0, size_read: None },
        handle_reader_cb(Ok(usize::MAX), usize::MAX - 1)
    );
}
