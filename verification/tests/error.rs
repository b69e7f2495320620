use async_fetch::{Error, Stage};
use std::io::ErrorKind;

#[test]
fn a_failed_stream_is_named_by_its_stage() {
    assert_eq!(Error::failure(Stage::Connect, false), Error::UnableToConnect);
    assert_eq!(Error::failure(Stage::WriteHead, false), Error::UnableToWrite);
    assert_eq!(Error::failure(Stage::WriteBody, false), Error::UnableToWrite);
    assert_eq!(Error::failure(Stage::ReadStatusLine, false), Error::UnableToRead);
    assert_eq!(Error::failure(Stage::ReadHeaderLine, false), Error::UnableToRead);
    assert_eq!(Error::failure(Stage::ReadBody, false), Error::UnableToRead);
}

#[test]
fn refused_data_is_named_by_its_stage() {
    assert_eq!(Error::failure(Stage::Connect, true), Error::UnableToConnect);
    assert_eq!(Error::failure(Stage::WriteHead, true), Error::UnableToWrite);
    assert_eq!(Error::failure(Stage::WriteBody, true), Error::LimitExceeded);
    assert_eq!(Error::failure(Stage::ReadStatusLine, true), Error::InvalidData);
    assert_eq!(Error::failure(Stage::ReadHeaderLine, true), Error::InvalidHeader);
    assert_eq!(Error::failure(Stage::ReadBody, true), Error::InvalidData);
}

#[test]
fn io_errors_are_mapped_by_kind() {
    let refused = std::io::Error::new(ErrorKind::InvalidData, "refused");
    let broken = std::io::Error::new(ErrorKind::BrokenPipe, "broken");
    let eof = std::io::Error::new(ErrorKind::UnexpectedEof, "eof");
    assert_eq!(Error::from_io(Stage::WriteBody, &refused), Error::LimitExceeded);
    assert_eq!(Error::from_io(Stage::WriteBody, &broken), Error::UnableToWrite);
    assert_eq!(Error::from_io(Stage::ReadHeaderLine, &refused), Error::InvalidHeader);
    assert_eq!(Error::from_io(Stage::ReadBody, &eof), Error::UnableToRead);
    assert_eq!(Error::from_io(Stage::ReadBody, &refused), Error::InvalidData);
    assert_eq!(Error::from_io(Stage::Connect, &refused), Error::UnableToConnect);
}

#[test]
fn the_codec_refuses_a_body_beyond_its_limit_with_invalid_data() {
    let mut wire = Vec::new();
    let mut body: &[u8] = b"0123456789";
    let failed = async_std::task::block_on(async_httplib::write_chunks(
        &mut wire,
        &mut body,
        (Some(3), Some(4)),
    ))
    .unwrap_err();
    assert_eq!(Error::from_io(Stage::WriteBody, &failed), Error::LimitExceeded);
}
