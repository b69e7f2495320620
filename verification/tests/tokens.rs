use async_fetch::{Error, Method, Status, Version};

#[test]
fn method_tokens_are_read() {
    assert_eq!(Method::from_str("GET"), Ok(Method::Get));
    assert_eq!(Method::from_str("HEAD"), Ok(Method::Head));
    assert_eq!(Method::from_str("POST"), Ok(Method::Post));
    assert_eq!(Method::from_str("PUT"), Ok(Method::Put));
    assert_eq!(Method::from_str("DELETE"), Ok(Method::Delete));
    assert_eq!(Method::from_str("CONNECT"), Ok(Method::Connect));
    assert_eq!(Method::from_str("OPTIONS"), Ok(Method::Options));
    assert_eq!(Method::from_str("TRACE"), Ok(Method::Trace));
    assert_eq!(Method::from_str("PATCH"), Ok(Method::Patch));
}

#[test]
fn unknown_method_tokens_are_invalid() {
    assert_eq!(Method::from_str("get"), Err(Error::InvalidMethod));
    assert_eq!(Method::from_str(""), Err(Error::InvalidMethod));
    assert_eq!(Method::from_str("GET "), Err(Error::InvalidMethod));
    assert_eq!(Method::from_str("FETCH"), Err(Error::InvalidMethod));
}

#[test]
fn method_tokens_are_written() {
    assert_eq!(Method::Get.to_string(), "GET");
    assert_eq!(Method::Head.to_string(), "HEAD");
    assert_eq!(Method::Post.to_string(), "POST");
    assert_eq!(Method::Put.to_string(), "PUT");
    assert_eq!(Method::Delete.to_string(), "DELETE");
    assert_eq!(Method::Connect.to_string(), "CONNECT");
    assert_eq!(Method::Options.to_string(), "OPTIONS");
    assert_eq!(Method::Trace.to_string(), "TRACE");
    assert_eq!(Method::Patch.to_string(), "PATCH");
}

#[test]
fn methods_that_carry_a_body() {
    assert!(Method::Post.has_body());
    assert!(Method::Put.has_body());
    assert!(Method::Delete.has_body());
    assert!(Method::Patch.has_body());
    assert!(!Method::Get.has_body());
    assert!(!Method::Head.has_body());
    assert!(!Method::Connect.has_body());
    assert!(!Method::Options.has_body());
    assert!(!Method::Trace.has_body());
}

#[test]
fn version_tokens_are_read() {
    assert_eq!(Version::from_str("HTTP/0.9"), Ok(Version::Http0_9));
    assert_eq!(Version::from_str("0.9"), Ok(Version::Http0_9));
    assert_eq!(Version::from_str("HTTP/1.0"), Ok(Version::Http1_0));
    assert_eq!(Version::from_str("1.0"), Ok(Version::Http1_0));
    assert_eq!(Version::from_str("HTTP/1.1"), Ok(Version::Http1_1));
    assert_eq!(Version::from_str("1.1"), Ok(Version::Http1_1));
    assert_eq!(Version::from_str("1"), Ok(Version::Http1_1));
    assert_eq!(Version::from_str("HTTP/2"), Ok(Version::Http2_0));
    assert_eq!(Version::from_str("2.0"), Ok(Version::Http2_0));
    assert_eq!(Version::from_str("2"), Ok(Version::Http2_0));
    assert_eq!(Version::from_str("HTTP/3"), Ok(Version::Http3_0));
    assert_eq!(Version::from_str("3.0"), Ok(Version::Http3_0));
    assert_eq!(Version::from_str("3"), Ok(Version::Http3_0));
}

#[test]
fn unknown_version_tokens_are_invalid() {
    assert_eq!(Version::from_str("HTTP/1.2"), Err(Error::InvalidVersion));
    assert_eq!(Version::from_str("http/1.1"), Err(Error::InvalidVersion));
    assert_eq!(Version::from_str("HTTP/2.0"), Err(Error::InvalidVersion));
    assert_eq!(Version::from_str(""), Err(Error::InvalidVersion));
}

#[test]
fn version_tokens_are_read_from_bytes() {
    assert_eq!(Version::from_bytes(b"HTTP/1.1".to_vec()), Ok(Version::Http1_1));
    assert_eq!(Version::from_bytes(b"2".to_vec()), Ok(Version::Http2_0));
    assert_eq!(Version::from_bytes(b"HTTP/9".to_vec()), Err(Error::InvalidVersion));
    assert_eq!(Version::from_bytes(vec![0xff, 0xfe]), Err(Error::InvalidVersion));
    assert_eq!(Version::from_bytes(Vec::new()), Err(Error::InvalidVersion));
}

#[test]
fn version_tokens_are_written() {
    assert_eq!(Version::Http0_9.to_string(), "HTTP/0.9");
    assert_eq!(Version::Http1_0.to_string(), "HTTP/1.0");
    assert_eq!(Version::Http1_1.to_string(), "HTTP/1.1");
    assert_eq!(Version::Http2_0.to_string(), "HTTP/2");
    assert_eq!(Version::Http3_0.to_string(), "HTTP/3");
}

#[test]
fn versions_are_ordered_by_number() {
    let all = [
        Version::Http0_9,
        Version::Http1_0,
        Version::Http1_1,
        Version::Http2_0,
        Version::Http3_0,
    ];
    for (i, a) in all.iter().enumerate() {
        for (j, b) in all.iter().enumerate() {
            assert_eq!(a.at_least(*b), i >= j);
        }
    }
}

#[test]
fn status_codes_are_read() {
    assert_eq!(Status::from_str("200"), Ok(Status::Okay));
    assert_eq!(Status::from_str("404"), Ok(Status::NotFound));
    assert_eq!(Status::from_str("100"), Ok(Status::Continue));
    assert_eq!(Status::from_str("511"), Ok(Status::NetworkAuthenticationRequired));
    assert_eq!(Status::from_str("+200"), Ok(Status::Okay));
}

#[test]
fn unknown_status_codes_are_invalid() {
    assert_eq!(Status::from_str("199"), Err(Error::InvalidStatus));
    assert_eq!(Status::from_str("600"), Err(Error::InvalidStatus));
    assert_eq!(Status::from_str("OK"), Err(Error::InvalidStatus));
    assert_eq!(Status::from_str(""), Err(Error::InvalidStatus));
    assert_eq!(Status::from_str("70000"), Err(Error::InvalidStatus));
    assert_eq!(Status::from_code(0), Err(Error::InvalidStatus));
    assert_eq!(Status::from_code(102), Err(Error::InvalidStatus));
}

#[test]
fn status_codes_are_read_from_bytes() {
    assert_eq!(Status::from_bytes(b"201".to_vec()), Ok(Status::Created));
    assert_eq!(Status::from_bytes(b"2xx".to_vec()), Err(Error::InvalidStatus));
    assert_eq!(Status::from_bytes(vec![0x32, 0xff]), Err(Error::InvalidStatus));
}

#[test]
fn every_status_code_is_known_to_the_helper_crate() {
    for code in 0..=u16::MAX {
        let own = Status::from_code(code);
        let theirs = <async_httplib::Status as std::convert::TryFrom<u16>>::try_from(code);
        assert_eq!(own.is_ok(), theirs.is_ok(), "code {}", code);
        if let (Ok(own), Ok(theirs)) = (own, theirs) {
            assert_eq!(own.code(), code);
            assert_eq!(theirs.code(), code);
            assert_eq!(format!("{:?}", own).replace("Okay", "Ok"), format!("{:?}", theirs));
            assert_eq!(own.reason(), theirs.reason());
            assert_eq!(own.to_string(), theirs.to_string());
            assert_eq!(Status::from_str(&code.to_string()), Ok(own));
        }
    }
}

#[test]
fn status_text_and_reason() {
    assert_eq!(Status::Okay.code(), 200);
    assert_eq!(Status::Okay.to_string(), "200");
    assert_eq!(Status::Okay.reason(), "OK");
    assert_eq!(Status::NotFound.to_string(), "404");
    assert_eq!(Status::NotFound.reason(), "Not Found");
    assert_eq!(Status::ImATeapot.reason(), "I'm a teapot");
}

#[test]
fn written_tokens_are_read_back() {
    let methods = [
        Method::Get,
        Method::Head,
        Method::Post,
        Method::Put,
        Method::Delete,
        Method::Connect,
        Method::Options,
        Method::Trace,
        Method::Patch,
    ];
    for method in methods {
        assert_eq!(Method::from_str(&method.to_string()), Ok(method));
    }
    let versions = [
        Version::Http0_9,
        Version::Http1_0,
        Version::Http1_1,
        Version::Http2_0,
        Version::Http3_0,
    ];
    for version in versions {
        assert_eq!(Version::from_str(&version.to_string()), Ok(version));
        assert_eq!(Version::from_bytes(version.to_string().into_bytes()), Ok(version));
    }
}
