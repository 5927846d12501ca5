use wise::codec::{decode_frame, encode_frame, DEFAULT_MAX_PAYLOAD};
use wise::connection::{connect_request, login_request, Phase, RconConnection, Received};
use wise::credentials::RconCredentials;
use wise::error::{IoErrorKind, RconError};
use wise::messages::{RconRequest, RconResponse};

fn response(status: i32, name: &str, body: &str) -> RconResponse {
    RconResponse {
        status_code: status,
        status_message: String::from("m"),
        version: 2,
        name: String::from(name),
        content_body: String::from(body),
    }
}

/// What a server that masks with `key` puts on the wire for `response`.
fn wire(response: &RconResponse, key: &[u8]) -> (Vec<u8>, Vec<u8>) {
    let text = response.to_json().render();
    let bytes = encode_frame(9, text.as_bytes(), key).unwrap();
    (bytes[..8].to_vec(), bytes[8..].to_vec())
}

fn exchange(
    session: &mut RconConnection<()>,
    request: RconRequest,
    answer: &RconResponse,
    key: &[u8],
) -> Result<RconResponse, RconError> {
    session.encode(1, request)?;
    let (header, payload) = wire(answer, key);
    let header = session.accept_header(Received::Bytes(header))?;
    session.accept_payload(header.length, Received::Bytes(payload))
}

fn credentials(password: &str) -> RconCredentials {
    RconCredentials { address: String::from("127.0.0.1:7779"), password: String::from(password) }
}

fn logged_in(id: u64) -> RconConnection<()> {
    let mut session = RconConnection::new(id, ());
    let answer = response(200, "ServerConnect", "YWJjZA==");
    let got = exchange(&mut session, connect_request(), &answer, &[]).unwrap();
    session.accept_key(&got).unwrap();
    let answer = response(200, "Login", "tok");
    let got =
        exchange(&mut session, login_request(&credentials("pw")), &answer, b"abcd")
            .unwrap();
    session.accept_login(&got).unwrap();
    session
}

#[test]
fn handshake_yields_key_and_token() {
    let mut session = RconConnection::new(1, ());
    assert_eq!(session.phase(), Phase::Connecting);
    assert!(session.xor_key().is_empty());
    assert_eq!(session.auth_token(), "");

    // Before the key has arrived nothing is masked.
    let request = connect_request();
    assert_eq!(request.name, "ServerConnect");
    assert_eq!(request.content_body, "");
    assert_eq!(request.version, "2");
    let sent = session.encode(0, request).unwrap();
    let (_, payload) = decode_frame(&sent, &[], DEFAULT_MAX_PAYLOAD).unwrap();
    assert_eq!(
        String::from_utf8(payload).unwrap(),
        "{\"authToken\":\"\",\"version\":\"2\",\"name\":\"ServerConnect\",\"contentBody\":\"\"}"
    );

    let answer = response(200, "ServerConnect", "YWJjZA==");
    let (header, payload) = wire(&answer, &[]);
    let header = session.accept_header(Received::Bytes(header)).unwrap();
    let got = session.accept_payload(header.length, Received::Bytes(payload)).unwrap();
    assert_eq!(got, answer);
    assert_eq!(session.accept_key(&got), Ok(()));
    assert_eq!(session.xor_key(), &vec![0x61u8, 0x62, 0x63, 0x64]);
    assert_eq!(session.phase(), Phase::KeyExchanged);

    // From now on both directions are masked with the key.
    let request = login_request(&credentials("pw"));
    assert_eq!(request.name, "Login");
    assert_eq!(request.content_body, "pw");
    let sent = session.encode(1, request).unwrap();
    let (id, payload) = decode_frame(&sent, b"abcd", DEFAULT_MAX_PAYLOAD).unwrap();
    assert_eq!(id, 1);
    assert_eq!(
        String::from_utf8(payload).unwrap(),
        "{\"authToken\":\"\",\"version\":\"2\",\"name\":\"Login\",\"contentBody\":\"pw\"}"
    );

    let answer = response(200, "Login", "tok");
    let (header, payload) = wire(&answer, b"abcd");
    let header = session.accept_header(Received::Bytes(header)).unwrap();
    let got = session.accept_payload(header.length, Received::Bytes(payload)).unwrap();
    assert_eq!(session.accept_login(&got), Ok(()));
    assert_eq!(session.auth_token(), "tok");
    assert!(session.is_authenticated());
    assert_eq!(session.id(), 1);
}

#[test]
fn wrong_password_is_invalid_password() {
    let mut session = RconConnection::new(2, ());
    let got =
        exchange(&mut session, connect_request(), &response(200, "c", "YWJjZA=="), &[])
            .unwrap();
    session.accept_key(&got).unwrap();
    let got = exchange(
        &mut session,
        login_request(&credentials("bad")),
        &response(401, "Login", ""),
        b"abcd",
    )
    .unwrap();
    assert_eq!(session.accept_login(&got), Err(RconError::InvalidPassword));
    assert!(session.is_closed());
}

#[test]
fn a_session_that_was_refused_yields_no_further_success() {
    let mut session = RconConnection::new(3, ());
    let got =
        exchange(&mut session, connect_request(), &response(200, "c", "YWJjZA=="), &[])
            .unwrap();
    session.accept_key(&got).unwrap();
    let refused = response(401, "Login", "");
    assert_eq!(session.accept_login(&refused), Err(RconError::InvalidPassword));

    let closed = Err(RconError::IoError(IoErrorKind::NotConnected));
    assert_eq!(session.encode(5, RconRequest::new("Login", "pw")), closed);
    assert_eq!(session.encode(5, RconRequest::new("ServerBroadcast", "hi")), closed);
    let ok = response(200, "Login", "tok");
    let (header, payload) = wire(&ok, b"abcd");
    assert!(session.accept_header(Received::Bytes(header)).is_err());
    assert!(session.accept_payload(payload.len() as u32, Received::Bytes(payload)).is_err());
    assert!(session.accept_login(&ok).is_err());
    assert!(session.accept_key(&ok).is_err());
    assert!(session.is_closed());
    assert!(!session.is_authenticated());
}

#[test]
fn requests_carry_the_token_after_login() {
    let session = logged_in(4);
    let sent = session.encode(3, RconRequest::new("ServerBroadcast", "hi")).unwrap();
    let (_, payload) = decode_frame(&sent, b"abcd", DEFAULT_MAX_PAYLOAD).unwrap();
    assert_eq!(
        String::from_utf8(payload).unwrap(),
        "{\"authToken\":\"tok\",\"version\":\"2\",\"name\":\"ServerBroadcast\",\"contentBody\":\"hi\"}"
    );
}

#[test]
fn only_the_handshake_commands_may_be_sent_before_login() {
    let session = RconConnection::new(5, ());
    assert!(session.may_send("ServerConnect"));
    assert!(session.may_send("Login"));
    assert!(!session.may_send("ServerBroadcast"));
    assert!(matches!(
        session.encode(1, RconRequest::new("ServerBroadcast", "hi")),
        Err(RconError::InvalidData(_))
    ));
    assert!(logged_in(6).may_send("ServerBroadcast"));
}

#[test]
fn a_read_that_times_out_closes_the_session() {
    let mut session = logged_in(7);
    assert_eq!(session.accept_header(Received::TimedOut), Err(RconError::TimeOut));
    assert!(session.is_closed());

    let mut session = logged_in(8);
    let (header, _) = wire(&response(200, "x", "y"), b"abcd");
    let header = session.accept_header(Received::Bytes(header)).unwrap();
    assert_eq!(session.accept_payload(header.length, Received::TimedOut), Err(RconError::TimeOut));
    assert!(session.is_closed());
}

#[test]
fn transport_failures_close_the_session() {
    let mut session = logged_in(9);
    assert_eq!(
        session.accept_header(Received::Failed(IoErrorKind::ConnectionReset)),
        Err(RconError::IoError(IoErrorKind::ConnectionReset))
    );
    assert!(session.is_closed());

    let mut session = logged_in(10);
    assert_eq!(
        session.accept_header(Received::Bytes(vec![1, 2, 3])),
        Err(RconError::IoError(IoErrorKind::UnexpectedEof))
    );
    assert!(session.is_closed());

    let mut session = logged_in(11);
    assert_eq!(
        session.accept_payload(4, Received::Bytes(vec![1, 2, 3])),
        Err(RconError::IoError(IoErrorKind::UnexpectedEof))
    );
    assert!(session.is_closed());

    let mut session = logged_in(12);
    session.abort();
    assert!(session.is_closed());
}

#[test]
fn an_oversize_length_is_invalid_data() {
    let mut session = RconConnection::with_max_payload(13, (), 16);
    let header = vec![0u8, 0, 0, 0, 17, 0, 0, 0];
    assert!(matches!(
        session.accept_header(Received::Bytes(header)),
        Err(RconError::InvalidData(_))
    ));
    assert!(session.is_closed());

    let mut session = RconConnection::with_max_payload(14, (), 16);
    let header = session.accept_header(Received::Bytes(vec![7, 0, 0, 0, 16, 0, 0, 0])).unwrap();
    assert_eq!(header.id, 7);
    assert_eq!(header.length, 16);
}

#[test]
fn a_payload_that_is_no_response_is_invalid_data() {
    let mut session = logged_in(15);
    let r = session.accept_payload(2, Received::Bytes(vec![b'{' ^ b'a', b'}' ^ b'b']));
    assert!(matches!(r, Err(RconError::InvalidData(_))));
    assert!(!session.is_closed());
    let r = session.accept_payload(3, Received::Bytes(b"abc".to_vec()));
    assert!(matches!(r, Err(RconError::InvalidData(_))));
}

#[test]
fn a_refused_connect_or_a_bad_key_fails_the_handshake() {
    let mut session = RconConnection::new(16, ());
    assert!(matches!(
        session.accept_key(&response(500, "ServerConnect", "YWJjZA==")),
        Err(RconError::InvalidData(_))
    ));
    assert!(session.is_closed());

    let mut session = RconConnection::new(17, ());
    assert!(matches!(
        session.accept_key(&response(200, "ServerConnect", "not base64!")),
        Err(RconError::InvalidData(_))
    ));
    assert!(session.is_closed());
}

#[test]
fn steps_out_of_turn_are_refused() {
    let mut session = RconConnection::new(18, ());
    assert!(matches!(
        session.accept_login(&response(200, "Login", "tok")),
        Err(RconError::InvalidData(_))
    ));
    assert_eq!(session.phase(), Phase::Connecting);
    let mut session = logged_in(19);
    assert!(matches!(
        session.accept_key(&response(200, "ServerConnect", "YWJjZA==")),
        Err(RconError::InvalidData(_))
    ));
    assert!(session.is_authenticated());
}

#[test]
fn a_session_keeps_its_connection() {
    let mut session = RconConnection::new(20, vec![1u8]);
    session.link().push(2);
    assert_eq!(session.phase(), Phase::Connecting);
    assert_eq!(session.into_link(), vec![1u8, 2]);
}
