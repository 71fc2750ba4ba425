use std::io::Read;

use sde_types::error::ConvertError;
use sde_types::gzip::{stream_or_error, zip};

fn unpacked(stream: &[u8]) -> String {
    let mut text = String::new();
    flate2::read::GzDecoder::new(stream).read_to_string(&mut text).unwrap();
    text
}

#[test]
fn the_stream_unpacks_to_the_text() {
    let text = "[{\"id\":100,\"name\":{\"en\":\"Tritanium\"},\"groupID\":18}]";
    let stream = zip(text).unwrap();
    assert_ne!(stream, text.as_bytes());
    assert_eq!(unpacked(&stream), text);
}

#[test]
fn the_stream_starts_with_a_gzip_header_without_time_or_name() {
    let stream = zip("[]").unwrap();
    assert_eq!(&stream[0..3], &[0x1f, 0x8b, 8]);
    assert_eq!(stream[3], 0);
    assert_eq!(&stream[4..8], &[0, 0, 0, 0]);
    assert_eq!(stream[8], 0);
    assert_eq!(stream[9], 255);
}

#[test]
fn the_stream_ends_with_the_length_of_the_text() {
    let text = "0123456789";
    let stream = zip(text).unwrap();
    let n = stream.len();
    assert_eq!(&stream[n - 4..], &[10, 0, 0, 0]);
}

#[test]
fn the_empty_text_gives_a_stream_too() {
    let stream = zip("").unwrap();
    assert!(stream.len() > 10);
    assert_eq!(unpacked(&stream), "");
}

#[test]
fn text_in_other_scripts_is_packed_as_utf8() {
    let text = "\u{0422}\u{0440}\u{0438}\u{0442}\u{0430}\u{043d}\u{0438}\u{0443}\u{043c} \u{30c8}\u{30ea}";
    assert_eq!(unpacked(&zip(text).unwrap()), text);
}

#[test]
fn a_long_text_is_made_smaller() {
    let mut text = String::new();
    for i in 0..5000 {
        text.push_str(&format!("{{\"id\":{},\"name\":{{\"en\":\"Item\"}},\"groupID\":18}},", i));
    }
    let stream = zip(&text).unwrap();
    assert!(stream.len() < text.len() / 4);
    assert_eq!(unpacked(&stream), text);
}

#[test]
fn the_same_text_gives_the_same_stream() {
    let text = "[{\"id\":1,\"name\":{},\"groupID\":2}]";
    assert_eq!(zip(text), zip(text));
}

#[test]
fn a_stream_that_was_made_is_handed_on() {
    assert_eq!(stream_or_error(Ok(vec![1, 2, 3])), Ok(vec![1, 2, 3]));
}

#[test]
fn a_failure_to_compress_is_an_io_error() {
    let failure = std::io::Error::new(std::io::ErrorKind::WriteZero, "no room");
    assert_eq!(stream_or_error(Err(failure)), Err(ConvertError::IoError));
}
