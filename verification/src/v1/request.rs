//! The upgrade request with which a session asks the server for a
//! WebSocket. The request is assembled by the `http` crate; what is decided
//! here is which headers it is given, and in which order.

use vstd::prelude::*;

verus! {

#[verifier::external_type_specification]
#[verifier::external_body]
pub struct ExBuilder(http::request::Builder);

#[verifier::external_type_specification]
#[verifier::external_body]
#[verifier::reject_recursive_types(T)]
pub struct ExRequest<T>(http::Request<T>);

#[verifier::external_type_specification]
#[verifier::external_body]
pub struct ExError(http::Error);

/// The head of a request as `http` holds it: the method, the target, and
/// the header fields in the order in which the crate walks them, each name
/// in the crate's own spelling.
pub struct RequestHead {
    pub method: Seq<char>,
    pub uri: Seq<char>,
    pub headers: Seq<(Seq<char>, Seq<u8>)>,
}

/// What a builder holds: the head assembled so far, or `None` once a part
/// was refused.
pub uninterp spec fn builder_head(builder: http::request::Builder) -> Option<RequestHead>;

/// The head of a finished request.
pub uninterp spec fn request_head(request: http::Request<()>) -> RequestHead;

/// The head that `http` starts a GET request for `uri` with, or `None` where
/// it refuses `uri` as a target.
pub uninterp spec fn head_of_get(uri: Seq<char>) -> Option<RequestHead>;

/// The head `head` after `http` has appended the header `name: value` to it.
pub uninterp spec fn head_with_header(
    head: RequestHead,
    name: Seq<char>,
    value: Seq<char>,
) -> RequestHead;

/// `http::Request::get`: a builder for a GET request to `uri`, without
/// headers. What it holds depends on `uri` alone.
#[verifier::external_body]
fn get_request(uri: &str) -> (builder: http::request::Builder)
    ensures
        builder_head(builder) == head_of_get(uri@),
        builder_head(builder) matches Some(head) ==> head.method == "GET"@ && head.headers.len()
            == 0,
{
    http::Request::get(uri)
}

/// Whether `name` is a header name of the plainest kind: between one and 64
/// ASCII letters, digits and hyphens.
pub open spec fn is_plain_name(name: Seq<char>) -> bool {
    &&& 1 <= name.len() <= 64
    &&& forall|i: int|
        0 <= i < name.len() ==> {
            let c = #[trigger] name[i];
            ('a' <= c <= 'z') || ('A' <= c <= 'Z') || ('0' <= c <= '9') || c == '-'
        }
}

/// Whether `value` is a header value of the plainest kind: printable ASCII,
/// the space included.
pub open spec fn is_plain_value(value: Seq<char>) -> bool {
    forall|i: int| 0 <= i < value.len() ==> ' ' <= #[trigger] value[i] <= '~'
}

/// `http::request::Builder::header`. A builder that holds no head stays so.
/// Where the result holds a head, it is the one before with the header
/// appended: one header more, method and target as before. A plain header
/// is accepted wherever the head holds fewer than 64 headers; of other
/// headers it is not stated whether the crate accepts them.
#[verifier::external_body]
fn with_header(builder: http::request::Builder, name: &str, value: &str) -> (extended:
    http::request::Builder)
    ensures
        builder_head(builder) is None ==> builder_head(extended) is None,
        builder_head(extended) matches Some(after) ==> builder_head(builder) matches Some(before)
            && after == head_with_header(before, name@, value@) && after.method == before.method
            && after.uri == before.uri && after.headers.len() == before.headers.len() + 1,
        builder_head(builder) matches Some(before) && before.headers.len() < 64 && is_plain_name(
            name@,
        ) && is_plain_value(value@) ==> builder_head(extended) is Some,
{
    builder.header(name, value)
}

/// `http::request::Builder::body`, with an empty body: the request with the
/// head that the builder holds, or the error of the part that was refused.
#[verifier::external_body]
fn finish(builder: http::request::Builder) -> (finished: Result<http::Request<()>, http::Error>)
    ensures
        match finished {
            Ok(request) => builder_head(builder) == Some(request_head(request)),
            Err(_) => builder_head(builder) is None,
        },
{
    builder.body(())
}

/// The headers of the upgrade request, in the order in which they are
/// given. The WebSocket handshake and the subscription sub-protocol ask for
/// `Upgrade`, `Connection` and the four `Sec-WebSocket` headers; the others
/// describe the client.
pub open spec fn upgrade_header_list() -> Seq<(Seq<char>, Seq<char>)> {
    seq![
        ("Host"@, "websocket-api.tibber.com"@),
        ("Accept"@, "*/*"@),
        ("Accept-Language"@, "en-US,en;q=0.5"@),
        ("Accept-Encoding"@, "gzip, deflate, br"@),
        ("Sec-WebSocket-Version"@, "13"@),
        ("Origin"@, "https://developer.tibber.com"@),
        ("Sec-WebSocket-Protocol"@, "graphql-transport-ws"@),
        ("Sec-WebSocket-Extensions"@, "permessage-deflate"@),
        ("Sec-WebSocket-Key"@, "iNwnisOA5oCUVnR3Gn1rUA=="@),
        ("DNT"@, "1"@),
        ("Connection"@, "keep-alive, Upgrade"@),
        ("Sec-Fetch-Dest"@, "websocket"@),
        ("Sec-Fetch-Mode"@, "websocket"@),
        ("Sec-Fetch-Site"@, "same-site"@),
        ("Pragma"@, "no-cache"@),
        ("Cache-Control"@, "no-cache"@),
        ("Upgrade"@, "websocket"@),
        ("User-Agent"@, "CasaMack/1.0"@),
    ]
}

/// `head` after each of `headers` has been appended to it, in order.
pub open spec fn head_with_headers(
    head: RequestHead,
    headers: Seq<(Seq<char>, Seq<char>)>,
) -> RequestHead
    decreases headers.len(),
{
    if headers.len() == 0 {
        head
    } else {
        head_with_header(
            head_with_headers(head, headers.drop_last()),
            headers.last().0,
            headers.last().1,
        )
    }
}

/// The upgrade request could not be assembled.
#[derive(Clone, Copy, Debug, PartialEq, Eq, Structural)]
pub enum RequestError {
    /// `http` refused the endpoint, or one of the headers.
    Refused,
}

/// The headers of the upgrade request.
pub fn upgrade_headers() -> (headers: Vec<(&'static str, &'static str)>)
    ensures
        headers.deep_view() == upgrade_header_list(),
{
    let mut headers: Vec<(&'static str, &'static str)> = Vec::new();
    headers.push(("Host", "websocket-api.tibber.com"));
    headers.push(("Accept", "*/*"));
    headers.push(("Accept-Language", "en-US,en;q=0.5"));
    headers.push(("Accept-Encoding", "gzip, deflate, br"));
    headers.push(("Sec-WebSocket-Version", "13"));
    headers.push(("Origin", "https://developer.tibber.com"));
    headers.push(("Sec-WebSocket-Protocol", "graphql-transport-ws"));
    headers.push(("Sec-WebSocket-Extensions", "permessage-deflate"));
    headers.push(("Sec-WebSocket-Key", "iNwnisOA5oCUVnR3Gn1rUA=="));
    headers.push(("DNT", "1"));
    headers.push(("Connection", "keep-alive, Upgrade"));
    headers.push(("Sec-Fetch-Dest", "websocket"));
    headers.push(("Sec-Fetch-Mode", "websocket"));
    headers.push(("Sec-Fetch-Site", "same-site"));
    headers.push(("Pragma", "no-cache"));
    headers.push(("Cache-Control", "no-cache"));
    headers.push(("Upgrade", "websocket"));
    headers.push(("User-Agent", "CasaMack/1.0"));
    assert(headers.deep_view() =~= upgrade_header_list());
    headers
}

/// Every header of the list is a plain one, and there are 18 of them.
pub proof fn lemma_upgrade_headers_are_plain()
    ensures
        upgrade_header_list().len() == 18,
        forall|i: int|
            0 <= i < upgrade_header_list().len() ==> is_plain_name(
                (#[trigger] upgrade_header_list()[i]).0,
            ) && is_plain_value(upgrade_header_list()[i].1),
{
    reveal_strlit("Host");
    reveal_strlit("websocket-api.tibber.com");
    reveal_strlit("Accept");
    reveal_strlit("*/*");
    reveal_strlit("Accept-Language");
    reveal_strlit("en-US,en;q=0.5");
    reveal_strlit("Accept-Encoding");
    reveal_strlit("gzip, deflate, br");
    reveal_strlit("Sec-WebSocket-Version");
    reveal_strlit("13");
    reveal_strlit("Origin");
    reveal_strlit("https://developer.tibber.com");
    reveal_strlit("Sec-WebSocket-Protocol");
    reveal_strlit("graphql-transport-ws");
    reveal_strlit("Sec-WebSocket-Extensions");
    reveal_strlit("permessage-deflate");
    reveal_strlit("Sec-WebSocket-Key");
    reveal_strlit("iNwnisOA5oCUVnR3Gn1rUA==");
    reveal_strlit("DNT");
    reveal_strlit("1");
    reveal_strlit("Connection");
    reveal_strlit("keep-alive, Upgrade");
    reveal_strlit("Sec-Fetch-Dest");
    reveal_strlit("websocket");
    reveal_strlit("Sec-Fetch-Mode");
    reveal_strlit("Sec-Fetch-Site");
    reveal_strlit("same-site");
    reveal_strlit("Pragma");
    reveal_strlit("no-cache");
    reveal_strlit("Cache-Control");
    reveal_strlit("Upgrade");
    reveal_strlit("User-Agent");
    reveal_strlit("CasaMack/1.0");
}

/// Assembles the upgrade request for `endpoint`: a GET request to it that
/// carries `upgrade_header_list`, in that order, and nothing else.
///
/// The endpoint decides: the request is assembled for every endpoint that
/// `http` takes as a target, and `Refused` for every other.
pub fn upgrade_request(endpoint: &str) -> (request: Result<http::Request<()>, RequestError>)
    ensures
        match request {
            Ok(assembled) => head_of_get(endpoint@) matches Some(start) && request_head(assembled)
                == head_with_headers(start, upgrade_header_list()) && request_head(
                assembled,
            ).method == "GET"@ && request_head(assembled).uri == start.uri && request_head(
                assembled,
            ).headers.len() == upgrade_header_list().len(),
            Err(error) => head_of_get(endpoint@) is None && error == RequestError::Refused,
        },
{
    let headers = upgrade_headers();
    let ghost list = upgrade_header_list();
    proof {
        lemma_upgrade_headers_are_plain();
    }
    let mut builder = get_request(endpoint);
    let mut i: usize = 0;
    while i < headers.len()
        invariant
            i <= headers.len(),
            headers.deep_view() == list,
            list.len() == 18,
            forall|j: int|
                0 <= j < list.len() ==> is_plain_name((#[trigger] list[j]).0) && is_plain_value(
                    list[j].1,
                ),
            builder_head(builder) is Some <==> head_of_get(endpoint@) is Some,
            builder_head(builder) matches Some(head) ==> head_of_get(endpoint@) matches Some(start)
                && head == head_with_headers(start, list.take(i as int)) && head.method == "GET"@
                && head.uri == start.uri && head.headers.len() == i,
        decreases headers.len() - i,
    {
        let (name, value) = headers[i];
        proof {
            assert(list[i as int] == (name@, value@)) by {
                assert(headers.deep_view()[i as int] == headers[i as int].deep_view());
            }
            assert(list.take(i + 1).drop_last() =~= list.take(i as int));
            assert(list.take(i + 1).last() == list[i as int]);
        }
        builder = with_header(builder, name, value);
        i = i + 1;
    }
    assert(list.take(i as int) =~= list);
    match finish(builder) {
        Ok(assembled) => Ok(assembled),
        Err(_) => Err(RequestError::Refused),
    }
}

} // verus!
