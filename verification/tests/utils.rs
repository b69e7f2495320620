use async_fetch::{read_content_length, read_transfer_encoding, Error, Headers};

#[test]
fn transfer_encoding_defaults_to_identity() {
    let mut headers = Headers::new();
    assert_eq!(read_transfer_encoding(&headers), "identity");
    headers.insert("Transfer-Encoding".to_string(), "chunked".to_string());
    assert_eq!(read_transfer_encoding(&headers), "chunked");
    headers.insert("Transfer-Encoding".to_string(), "gzip".to_string());
    assert_eq!(read_transfer_encoding(&headers), "gzip");
}

#[test]
fn content_length_is_read_as_a_number() {
    let mut headers = Headers::new();
    assert_eq!(read_content_length(&headers, None), Err(Error::InvalidData));
    headers.insert("Content-Length".to_string(), "42".to_string());
    assert_eq!(read_content_length(&headers, None), Ok(42));
    assert_eq!(read_content_length(&headers, Some(42)), Ok(42));
    assert_eq!(read_content_length(&headers, Some(100)), Ok(42));
    assert_eq!(read_content_length(&headers, Some(41)), Err(Error::LimitExceeded));
    assert_eq!(read_content_length(&headers, Some(0)), Err(Error::LimitExceeded));
    headers.insert("Content-Length".to_string(), "0".to_string());
    assert_eq!(read_content_length(&headers, Some(0)), Ok(0));
    headers.insert("Content-Length".to_string(), "4 2".to_string());
    assert_eq!(read_content_length(&headers, None), Err(Error::InvalidData));
    assert_eq!(read_content_length(&headers, Some(1)), Err(Error::InvalidData));
    headers.insert("Content-Length".to_string(), "18446744073709551616".to_string());
    assert_eq!(read_content_length(&headers, None), Err(Error::InvalidData));
}

#[test]
fn content_length_is_read_as_std_reads_it() {
    let texts = [
        "0", "1", "+1", "-1", "007", "", "+", "-", "++1", "1+", " 1", "1 ", "0x10", "1e3", "١",
        "18446744073709551615", "18446744073709551616", "99999999999999999999999",
        "+18446744073709551615", "000000000000000000000000001",
    ];
    for text in texts {
        let mut headers = Headers::new();
        headers.insert("Content-Length".to_string(), text.to_string());
        assert_eq!(
            read_content_length(&headers, None).ok(),
            text.parse::<usize>().ok(),
            "text {:?}",
            text
        );
    }
}
