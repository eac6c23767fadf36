use shack::tcp::{ClientInner, HandshakeError, TooManyOpenRequests, MAX_OPEN_REQUESTS};

#[test]
fn reserve_then_take() {
    let mut t: ClientInner<&'static str> = ClientInner::new();
    assert_eq!(t.reserve("a"), Ok(1));
    assert_eq!(t.reserve("b"), Ok(2));
    assert_eq!(t.take(1), Some("a"));
    assert_eq!(t.take(1), None);
    assert_eq!(t.take(2), Some("b"));
    assert_eq!(t.take(0), None);
}

#[test]
fn ids_wrap_round_and_table_fills() {
    let mut t: ClientInner<usize> = ClientInner::new();
    for i in 1..MAX_OPEN_REQUESTS {
        assert_eq!(t.reserve(i), Ok(i as u16));
    }
    assert_eq!(t.reserve(0), Ok(0));
    assert_eq!(t.reserve(7), Err(TooManyOpenRequests));
    assert_eq!(t.take(1), Some(1));
    assert_eq!(t.reserve(7), Ok(1));
    assert_eq!(t.take(1), Some(7));
    assert_eq!(t.take(MAX_OPEN_REQUESTS as u16 - 1), Some(MAX_OPEN_REQUESTS - 1));
}

#[test]
fn handshake_error_messages() {
    assert_eq!(HandshakeError::NoVersionReceived.to_string(), "did not receive a version message");
    assert_eq!(HandshakeError::VersionMismatch.to_string(), "protocol version mismatch");
    assert_eq!(HandshakeError::IO.to_string(), "I/O error :)");
}
