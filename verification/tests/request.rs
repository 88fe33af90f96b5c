use tibber_subscribe::v1::request::{upgrade_headers, upgrade_request, RequestError};

const ENDPOINT: &str = "wss://websocket-api.tibber.com/v1-beta/gql/subscriptions";

#[test]
fn upgrade_headers_are_the_fixed_list() {
    assert_eq!(
        upgrade_headers(),
        vec![
            ("Host", "websocket-api.tibber.com"),
            ("Accept", "*/*"),
            ("Accept-Language", "en-US,en;q=0.5"),
            ("Accept-Encoding", "gzip, deflate, br"),
            ("Sec-WebSocket-Version", "13"),
            ("Origin", "https://developer.tibber.com"),
            ("Sec-WebSocket-Protocol", "graphql-transport-ws"),
            ("Sec-WebSocket-Extensions", "permessage-deflate"),
            ("Sec-WebSocket-Key", "iNwnisOA5oCUVnR3Gn1rUA=="),
            ("DNT", "1"),
            ("Connection", "keep-alive, Upgrade"),
            ("Sec-Fetch-Dest", "websocket"),
            ("Sec-Fetch-Mode", "websocket"),
            ("Sec-Fetch-Site", "same-site"),
            ("Pragma", "no-cache"),
            ("Cache-Control", "no-cache"),
            ("Upgrade", "websocket"),
            ("User-Agent", "CasaMack/1.0"),
        ]
    );
}

#[test]
fn upgrade_request_is_a_get_to_the_endpoint() {
    let request = upgrade_request(ENDPOINT).unwrap();
    assert_eq!(request.method(), http::Method::GET);
    assert_eq!(request.uri().to_string(), ENDPOINT);
}

#[test]
fn upgrade_request_carries_the_handshake_headers() {
    let request = upgrade_request(ENDPOINT).unwrap();
    let headers = request.headers();
    assert_eq!(headers.get("upgrade").unwrap(), "websocket");
    assert_eq!(headers.get("connection").unwrap(), "keep-alive, Upgrade");
    assert_eq!(headers.get("sec-websocket-protocol").unwrap(), "graphql-transport-ws");
    assert_eq!(headers.get("sec-websocket-version").unwrap(), "13");
    assert_eq!(headers.get("sec-websocket-key").unwrap(), "iNwnisOA5oCUVnR3Gn1rUA==");
}

#[test]
fn upgrade_request_carries_every_header_once_and_in_order() {
    let request = upgrade_request(ENDPOINT).unwrap();
    let carried: Vec<(String, String)> = request
        .headers()
        .iter()
        .map(|(name, value)| (name.as_str().to_string(), value.to_str().unwrap().to_string()))
        .collect();
    let given: Vec<(String, String)> = upgrade_headers()
        .iter()
        .map(|(name, value)| (name.to_ascii_lowercase(), value.to_string()))
        .collect();
    assert_eq!(carried.len(), 18);
    assert_eq!(carried, given);
}

#[test]
fn an_endpoint_that_is_no_uri_is_refused() {
    assert_eq!(upgrade_request("").err(), Some(RequestError::Refused));
    assert_eq!(upgrade_request("wss://exa mple.com/").err(), Some(RequestError::Refused));
}

#[test]
fn assembling_twice_gives_the_same_request() {
    let first = upgrade_request(ENDPOINT).unwrap();
    let second = upgrade_request(ENDPOINT).unwrap();
    assert_eq!(first.uri(), second.uri());
    assert_eq!(first.headers(), second.headers());
}
