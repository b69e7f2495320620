//! What holds of every request and every response.

use crate::address::parsed_url;
use crate::error::Error;
use crate::framing::{Framing, TransmissionView};
use crate::headers::{distinct, is_set, lemma_put, lemma_put_same, lookup, Field};
use crate::request::RequestView;
use crate::response::ResponseView;
use crate::text::{decimal, lemma_parse_decimal_of_decimal, parse_usize};
use crate::utils::{content_length, content_length_name, transfer_encoding, transfer_encoding_name};
use crate::wire::header_block;
use vstd::prelude::*;

verus! {

/// The names of the three headers that the engine itself writes differ from
/// one another.
pub proof fn lemma_header_names_differ()
    ensures
        "Host"@ != content_length_name(),
        "Host"@ != transfer_encoding_name(),
        content_length_name() != transfer_encoding_name(),
{
    reveal_strlit("Host");
    reveal_strlit("Content-Length");
    reveal_strlit("Transfer-Encoding");
    assert("Host"@.len() == 4);
    assert("Content-Length"@.len() == 14);
    assert("Transfer-Encoding"@.len() == 17);
}

/// A request made from a URL and written out at once names, in its request
/// line, the URL's path, query and fragment as the URL has them, and has no
/// header.
pub proof fn lemma_parsed_request_names_resource(text: Seq<char>)
    ensures
        parsed_url(text) matches Some(url) ==> RequestView::fresh(url).proto_text() == "GET"@
            + " "@ + url.resource + " "@ + "HTTP/1.1"@ + "\r\n"@ + "\r\n"@,
{
    if let Some(url) = parsed_url(text) {
        let request = RequestView::fresh(url);
        assert(header_block(request.headers) =~= Seq::<char>::empty());
        assert(request.proto_text() =~= request.request_line() + "\r\n"@);
    }
}

/// Resolving the headers a second time changes nothing.
pub proof fn lemma_header_resolution_is_idempotent(request: RequestView)
    requires
        distinct(request.headers),
    ensures
        request.with_host_header().with_host_header() == request.with_host_header(),
        request.with_body_headers().with_body_headers() == request.with_body_headers(),
        request.with_host_header().with_body_headers().with_host_header().with_body_headers()
            == request.with_host_header().with_body_headers(),
{
    lemma_header_names_differ();
    lemma_put(request.headers, "Host"@, request.host_with_port(), "Host"@);
    lemma_put(request.headers, transfer_encoding_name(), "chunked"@, transfer_encoding_name());
    let hosted = request.with_host_header();
    lemma_put(hosted.headers, transfer_encoding_name(), "chunked"@, "Host"@);
    lemma_put(hosted.headers, transfer_encoding_name(), "chunked"@, transfer_encoding_name());
    if hosted.method.carries_body() && !is_set(hosted.headers, content_length_name()) {
        lemma_put_same(
            hosted.with_body_headers().headers,
            transfer_encoding_name(),
            "chunked"@,
        );
    }
    if request.method.carries_body() && !is_set(request.headers, content_length_name()) {
        lemma_put_same(
            request.with_body_headers().headers,
            transfer_encoding_name(),
            "chunked"@,
        );
    }
}

/// Under HTTP/0.9 no header is written: the head is the request line alone,
/// whatever headers are set.
pub proof fn lemma_http09_writes_no_header(request: RequestView, headers: Seq<Field>)
    requires
        request.version is Http0_9,
    ensures
        request.proto_text() == "GET "@ + request.url.resource + "\r\n"@,
        (RequestView { headers, ..request }).proto_text() == request.proto_text(),
{
}

/// Where the method carries a body and no `Content-Length` is set, the
/// headers resolved for sending a stream hold `Transfer-Encoding: chunked`.
pub proof fn lemma_body_without_length_is_chunked(request: RequestView)
    requires
        distinct(request.headers),
        request.method.carries_body(),
        !is_set(request.headers, content_length_name()),
    ensures
        lookup(
            request.with_host_header().with_body_headers().headers,
            transfer_encoding_name(),
        ) == Some("chunked"@),
{
    lemma_header_names_differ();
    let hosted = request.with_host_header();
    lemma_put(request.headers, "Host"@, request.host_with_port(), content_length_name());
    assert(distinct(hosted.headers));
    assert(!is_set(hosted.headers, content_length_name()));
    lemma_put(hosted.headers, transfer_encoding_name(), "chunked"@, transfer_encoding_name());
}

/// A request prepared for a body of `length` bytes keeps its headers
/// distinct and declares that length in `Content-Length`; resolving the
/// other headers changes neither that nor `Transfer-Encoding`.
pub proof fn lemma_prepared_for_length(request: RequestView, length: usize)
    requires
        distinct(request.headers),
    ensures
        ({
            let sent = request.with_content_length(length).with_host_header().with_body_headers();
            &&& distinct(sent.headers)
            &&& lookup(sent.headers, content_length_name()) == Some(decimal(length as nat))
            &&& lookup(sent.headers, transfer_encoding_name()) == lookup(
                request.headers,
                transfer_encoding_name(),
            )
            &&& sent.version == request.version
            &&& sent.body_limit == request.body_limit
            &&& sent.url == request.url
            &&& content_length(sent.headers, None) == Ok::<usize, Error>(length)
        }),
{
    lemma_header_names_differ();
    lemma_parse_decimal_of_decimal(length as nat);
    let text = decimal(length as nat);
    let sized = request.with_content_length(length);
    lemma_put(request.headers, content_length_name(), text, content_length_name());
    lemma_put(request.headers, content_length_name(), text, transfer_encoding_name());
    let hosted = sized.with_host_header();
    lemma_put(sized.headers, "Host"@, sized.host_with_port(), content_length_name());
    lemma_put(sized.headers, "Host"@, sized.host_with_port(), transfer_encoding_name());
    assert(is_set(hosted.headers, content_length_name()));
    assert(hosted.with_body_headers() == hosted);
}

/// A body sent from a buffer comes back whole.
///
/// Let a request be prepared for the body `body`, under a version later
/// than HTTP/0.9, with no body limit below the body's length and with no
/// `Transfer-Encoding: chunked` set by hand. Then the body is written as
/// exactly `body.len()` bytes, a peer that reads the headers as this engine
/// does reads exactly `body.len()` bytes, and those are `body`, whatever
/// follows them on the wire.
pub proof fn lemma_slice_round_trip(request: RequestView, body: Seq<u8>, rest: Seq<u8>)
    requires
        distinct(request.headers),
        body.len() <= usize::MAX,
        !(request.version is Http0_9),
        transfer_encoding(request.headers) != "chunked"@,
        request.body_limit matches Some(limit) ==> body.len() <= limit,
    ensures
        ({
            let length = body.len() as usize;
            let sent = request.with_content_length(length).with_host_header().with_body_headers();
            let peer = ResponseView { headers: sent.headers, ..ResponseView::fresh() };
            &&& sent.framing() == Ok::<Framing, Error>(Framing::ContentLength { length })
            &&& peer.framing() == Ok::<Option<Framing>, Error>(
                Some(Framing::ContentLength { length }),
            )
            &&& (body + rest).take(length as int) == body
        }),
{
    let length = body.len() as usize;
    lemma_prepared_for_length(request, length);
    lemma_parse_decimal_of_decimal(length as nat);
    assert((body + rest).take(length as int) =~= body);
}

/// A declared length above the body limit is refused before anything is
/// written.
///
/// Let a request under a version later than HTTP/0.9 declare a
/// `Content-Length` above its body limit. Then its framing is
/// `LimitExceeded`, and so is what sending it takes, over a plain
/// connection and over TLS: there is no transmission, so nothing of the
/// body is written.
pub proof fn lemma_length_above_limit(request: RequestView, length: usize, limit: usize)
    requires
        !(request.version is Http0_9),
        lookup(request.headers, content_length_name()) matches Some(text) && parse_usize(text)
            == Some(length),
        request.body_limit == Some(limit),
        limit < length,
    ensures
        request.framing() == Err::<Framing, Error>(Error::LimitExceeded),
        request.transmission(false) == Err::<TransmissionView, Error>(Error::LimitExceeded),
        request.transmission(true) == Err::<TransmissionView, Error>(Error::LimitExceeded),
        request.url.scheme == "http"@ || request.url.scheme == "https"@ ==> request.dispatch()
            == Err::<TransmissionView, Error>(Error::LimitExceeded),
{
}

/// Sending a buffer that is longer than the body limit is refused.
///
/// Let a request with a scheme of `http` or `https`, under a version later
/// than HTTP/0.9, be prepared for a body longer than its body limit. Then
/// what sending it takes is `LimitExceeded`.
pub proof fn lemma_slice_above_limit(request: RequestView, length: usize, limit: usize)
    requires
        distinct(request.headers),
        !(request.version is Http0_9),
        request.url.scheme == "http"@ || request.url.scheme == "https"@,
        request.body_limit == Some(limit),
        limit < length,
    ensures
        request.with_content_length(length).with_host_header().with_body_headers().dispatch()
            == Err::<TransmissionView, Error>(Error::LimitExceeded),
{
    lemma_prepared_for_length(request, length);
    lemma_parse_decimal_of_decimal(length as nat);
    let sent = request.with_content_length(length).with_host_header().with_body_headers();
    lemma_length_above_limit(sent, length, limit);
}

/// A scheme other than `http` and `https` is `InvalidUrl`, whatever else
/// holds of the request and whichever headers were resolved: there is no
/// transmission, so nothing is connected to.
pub proof fn lemma_unsupported_scheme(request: RequestView)
    requires
        request.url.scheme != "http"@,
        request.url.scheme != "https"@,
    ensures
        request.dispatch() == Err::<TransmissionView, Error>(Error::InvalidUrl),
        request.with_host_header().dispatch() == Err::<TransmissionView, Error>(
            Error::InvalidUrl,
        ),
        request.with_host_header().with_body_headers().dispatch() == Err::<
            TransmissionView,
            Error,
        >(Error::InvalidUrl),
{
}

/// A response that declares a length of zero has an empty body and no
/// error: exactly zero bytes are to be read.
pub proof fn lemma_zero_length_reads_nothing(response: ResponseView)
    requires
        transfer_encoding(response.headers) != "chunked"@,
        lookup(response.headers, content_length_name()) matches Some(text) && parse_usize(text)
            == Some(0usize),
    ensures
        response.framing() == Ok::<Option<Framing>, Error>(
            Some(Framing::ContentLength { length: 0 }),
        ),
{
}

/// A response with `Transfer-Encoding: chunked` is read in chunks, under
/// its two limits, whatever length it declares.
pub proof fn lemma_chunked_reads_chunks(response: ResponseView)
    requires
        lookup(response.headers, transfer_encoding_name()) == Some("chunked"@),
    ensures
        response.framing() == Ok::<Option<Framing>, Error>(
            Some(
                Framing::Chunked {
                    chunk_limit: response.chunkline_limit,
                    limit: response.body_limit,
                },
            ),
        ),
{
}

} // verus!
