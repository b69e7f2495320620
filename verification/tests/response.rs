use async_fetch::{Error, Framing, Progress, Request, Response, Status, Version};

fn read_body(response: &Response, wire: &[u8]) -> Result<Vec<u8>, Error> {
    let mut reader = wire;
    let mut data = Vec::new();
    let done = match response.recv()? {
        Some(Framing::Chunked { chunk_limit, limit }) => async_std::task::block_on(
            async_httplib::read_chunks(&mut reader, &mut data, (chunk_limit, limit)),
        ),
        Some(Framing::ContentLength { length }) => {
            async_std::task::block_on(async_httplib::read_exact(&mut reader, &mut data, length))
        }
        Some(Framing::Identity { .. }) | None => Ok(0),
    };
    match done {
        Ok(_) => Ok(data),
        Err(e) => Err(Error::from_io(async_fetch::Stage::ReadBody, &e)),
    }
}

#[test]
fn default_response() {
    let response = Response::default();
    assert_eq!(*response.status(), Status::Okay);
    assert_eq!(*response.version(), Version::Http1_1);
    assert!(!response.has_headers());
    assert_eq!(*response.chunkline_limit(), None);
    assert_eq!(*response.body_limit(), None);
    assert!(!response.has_chunkline_limit());
    assert!(!response.has_body_limit());
    assert_eq!(response.to_proto_string(), "HTTP/1.1 200 OK\r\n\r\n");
}

#[test]
fn response_setters() {
    let mut response = Response::default();
    response.set_status(Status::NotFound);
    assert!(response.has_status(Status::NotFound));
    assert_eq!(response.set_status_str("503"), Ok(()));
    assert_eq!(*response.status(), Status::ServiceUnavailable);
    assert_eq!(response.set_status_str("999"), Err(Error::InvalidStatus));
    assert_eq!(response.set_status_str("abc"), Err(Error::InvalidStatus));
    assert_eq!(*response.status(), Status::ServiceUnavailable);
    response.set_version(Version::Http1_0);
    assert!(response.has_version(Version::Http1_0));
    assert_eq!(response.set_version_str("HTTP/2"), Ok(()));
    assert_eq!(response.set_version_str("HTTP/5"), Err(Error::InvalidVersion));
    assert_eq!(*response.version(), Version::Http2_0);
    response.set_header("Server", "a");
    response.set_header("Server", "b");
    assert!(response.has_headers());
    assert!(response.has_header("Server"));
    assert_eq!(response.header("Server"), Some(&"b".to_string()));
    assert_eq!(response.headers().len(), 1);
    response.remove_header("Server");
    assert!(!response.has_header("Server"));
    response.set_header("A", "1");
    response.clear_headers();
    assert!(!response.has_headers());
    response.set_chunkline_limit(16);
    response.set_body_limit(32);
    assert_eq!(*response.chunkline_limit(), Some(16));
    assert_eq!(*response.body_limit(), Some(32));
    assert!(response.has_chunkline_limit());
    assert!(response.has_body_limit());
}

#[test]
fn response_head_is_serialized() {
    let mut response = Response::default();
    response.set_status(Status::NotFound);
    response.set_header("Content-Length", "0");
    response.set_header("Server", "test");
    assert_eq!(
        response.to_proto_string(),
        "HTTP/1.1 404 Not Found\r\nContent-Length: 0\r\nServer: test\r\n\r\n"
    );
    response.set_version(Version::Http0_9);
    assert_eq!(response.to_proto_string(), "");
}

#[test]
fn status_line_opens_a_response() {
    let response = Response::open(b"HTTP/1.0".to_vec(), b"301".to_vec()).unwrap();
    assert_eq!(*response.version(), Version::Http1_0);
    assert_eq!(*response.status(), Status::MovedPermanently);
    assert!(!response.has_headers());
    assert_eq!(Response::open(b"HTTP/7".to_vec(), b"200".to_vec()).err(), Some(Error::InvalidVersion));
    assert_eq!(Response::open(b"HTTP/1.1".to_vec(), b"299".to_vec()).err(), Some(Error::InvalidStatus));
    assert_eq!(Response::open(b"HTTP/7".to_vec(), b"299".to_vec()).err(), Some(Error::InvalidVersion));
    assert_eq!(Response::open(vec![0xff], b"200".to_vec()).err(), Some(Error::InvalidVersion));
    assert_eq!(Response::open(b"HTTP/1.1".to_vec(), vec![0xff]).err(), Some(Error::InvalidStatus));
}

#[test]
fn header_lines_fill_the_response_until_the_empty_line() {
    let mut response = Response::open(b"HTTP/1.1".to_vec(), b"200".to_vec()).unwrap();
    assert_eq!(response.read_header(b"Content-Type".to_vec(), b"text/plain".to_vec()), Ok(Progress::More));
    assert_eq!(response.read_header(b"X-Empty".to_vec(), Vec::new()), Ok(Progress::More));
    assert_eq!(response.read_header(b"Content-Type".to_vec(), b"text/html".to_vec()), Ok(Progress::More));
    assert_eq!(response.read_header(Vec::new(), Vec::new()), Ok(Progress::Complete));
    assert_eq!(response.read_header(Vec::new(), b"ignored".to_vec()), Ok(Progress::Complete));
    assert_eq!(response.headers().len(), 2);
    assert_eq!(response.header("Content-Type"), Some(&"text/html".to_string()));
    assert_eq!(response.header("X-Empty"), Some(&"".to_string()));
}

#[test]
fn header_that_is_not_utf8_is_invalid() {
    let mut response = Response::default();
    response.set_header("Kept", "yes");
    assert_eq!(response.read_header(vec![0x58, 0xff], b"v".to_vec()), Err(Error::InvalidHeader));
    assert_eq!(response.read_header(b"X".to_vec(), vec![0xc3, 0x28]), Err(Error::InvalidHeader));
    assert_eq!(response.headers().len(), 1);
    assert_eq!(response.read_header("Ünï".as_bytes().to_vec(), "çödé".as_bytes().to_vec()), Ok(Progress::More));
    assert_eq!(response.header("Ünï"), Some(&"çödé".to_string()));
}

#[test]
fn head_is_built_from_what_the_codec_reads() {
    let wire = b"HTTP/1.1 404 Not Found\r\nContent-Length: 3\r\nServer: t\r\n\r\nabc";
    let mut reader: &[u8] = wire;
    let (mut version, mut status, mut message) = (vec![], vec![], vec![]);
    async_std::task::block_on(async_httplib::read_first_line(
        &mut reader,
        (&mut version, &mut status, &mut message),
        None,
    ))
    .unwrap();
    let mut response = Response::open(version, status).unwrap();
    loop {
        let (mut name, mut value) = (vec![], vec![]);
        async_std::task::block_on(async_httplib::read_header_line(
            &mut reader,
            (&mut name, &mut value),
            None,
        ))
        .unwrap();
        if response.read_header(name, value).unwrap() == Progress::Complete {
            break;
        }
    }
    assert_eq!(*response.status(), Status::NotFound);
    assert_eq!(response.header("Content-Length"), Some(&"3".to_string()));
    assert_eq!(response.header("Server"), Some(&"t".to_string()));
    assert_eq!(read_body(&response, reader), Ok(b"abc".to_vec()));
}

#[test]
fn chunked_response_yields_hello() {
    let mut response = Response::default();
    response.set_header("Transfer-Encoding", "chunked");
    assert_eq!(
        response.recv(),
        Ok(Some(Framing::Chunked { chunk_limit: None, limit: None }))
    );
    let wire = ["5\r\nhello\r\n", "0\r\n\r\n"].concat();
    let body = read_body(&response, wire.as_bytes()).unwrap();
    assert_eq!(body, b"hello");
    assert_eq!(body.len(), 5);
}

#[test]
fn zero_content_length_yields_an_empty_body() {
    let mut response = Response::default();
    response.set_header("Content-Length", "0");
    assert_eq!(response.recv(), Ok(Some(Framing::ContentLength { length: 0 })));
    assert_eq!(read_body(&response, b""), Ok(Vec::new()));
}

#[test]
fn transfer_encoding_is_matched_exactly() {
    let mut response = Response::default();
    response.set_header("Transfer-Encoding", "Chunked");
    assert_eq!(response.recv(), Ok(None));
    response.set_header("Transfer-Encoding", "gzip, chunked");
    assert_eq!(response.recv(), Ok(None));
    response.set_header("Content-Length", "4");
    assert_eq!(response.recv(), Ok(Some(Framing::ContentLength { length: 4 })));
    response.set_header("Transfer-Encoding", "chunked");
    response.set_chunkline_limit(8);
    response.set_body_limit(2);
    assert_eq!(
        response.recv(),
        Ok(Some(Framing::Chunked { chunk_limit: Some(8), limit: Some(2) }))
    );
    let mut lower = Response::default();
    lower.set_header("transfer-encoding", "chunked");
    assert_eq!(lower.recv(), Ok(None));
}

#[test]
fn response_without_length_has_no_body() {
    let response = Response::default();
    assert_eq!(response.recv(), Ok(None));
    assert_eq!(read_body(&response, b"ignored until close"), Ok(Vec::new()));
}

#[test]
fn declared_length_is_held_against_the_body_limit() {
    let mut response = Response::default();
    response.set_header("Content-Length", "10");
    response.set_body_limit(10);
    assert_eq!(response.recv(), Ok(Some(Framing::ContentLength { length: 10 })));
    response.set_body_limit(9);
    assert_eq!(response.recv(), Err(Error::LimitExceeded));
    response.set_header("Content-Length", "ten");
    assert_eq!(response.recv(), Err(Error::InvalidData));
    response.set_header("Content-Length", "-1");
    assert_eq!(response.recv(), Err(Error::InvalidData));
}

#[test]
fn sent_slice_is_read_back_by_a_peer() {
    let bodies: [&[u8]; 4] = [b"", b"a", b"hello world", &[0u8, 255, 13, 10, 13, 10, 48]];
    for body in bodies {
        let mut request = Request::parse_url("http://example.com/echo").unwrap();
        request.set_method(async_fetch::Method::Post);
        let sent = request.send_slice(body).unwrap();
        let mut wire = sent.head.clone().into_bytes();
        match sent.framing {
            Framing::ContentLength { length } => {
                let mut source = body;
                if length > 0 {
                    async_std::task::block_on(async_httplib::write_exact(
                        &mut wire,
                        &mut source,
                        length,
                    ))
                    .unwrap();
                }
            }
            other => panic!("unexpected framing {:?}", other),
        }
        wire.extend_from_slice(b"GET /next HTTP/1.1\r\n\r\n");

        let mut reader: &[u8] = &wire;
        let (mut method, mut uri, mut version) = (vec![], vec![], vec![]);
        async_std::task::block_on(async_httplib::read_first_line(
            &mut reader,
            (&mut method, &mut uri, &mut version),
            None,
        ))
        .unwrap();
        assert_eq!(method, b"POST");
        assert_eq!(uri, b"/echo");
        let mut peer = Response::default();
        loop {
            let (mut name, mut value) = (vec![], vec![]);
            async_std::task::block_on(async_httplib::read_header_line(
                &mut reader,
                (&mut name, &mut value),
                None,
            ))
            .unwrap();
            if peer.read_header(name, value).unwrap() == Progress::Complete {
                break;
            }
        }
        assert_eq!(read_body(&peer, reader), Ok(body.to_vec()));
    }
}

#[test]
fn body_as_text() {
    assert_eq!(Response::recv_string(b"hello".to_vec()), Ok("hello".to_string()));
    assert_eq!(Response::recv_string("héllo ✓".as_bytes().to_vec()), Ok("héllo ✓".to_string()));
    assert_eq!(Response::recv_string(Vec::new()), Ok(String::new()));
    assert_eq!(Response::recv_string(vec![0x68, 0xff, 0x69]), Err(Error::InvalidData));
    assert_eq!(Response::recv_string(vec![0xed, 0xa0, 0x80]), Err(Error::InvalidData));
}

#[test]
fn body_as_json() {
    let value = Response::recv_json(b"{\"data\":{\"name\":\"John\"}}".to_vec()).unwrap();
    let name = value.get("data").unwrap().get("name").unwrap();
    assert_eq!(name.as_str(), Some("John"));
    assert_eq!(Response::recv_json(b"[1, 2]".to_vec()).unwrap().as_array().unwrap().len(), 2);
    assert_eq!(Response::recv_json(b"{\"open\":".to_vec()).err(), Some(Error::InvalidData));
    assert_eq!(Response::recv_json(b" ".to_vec()).err(), Some(Error::InvalidData));
}

#[test]
fn empty_body_is_the_empty_json_object() {
    let value = Response::recv_json(Vec::new()).unwrap();
    assert!(value.is_object());
    assert_eq!(value.as_object().unwrap().len(), 0);
}
