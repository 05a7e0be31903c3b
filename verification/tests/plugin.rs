use bytes::Bytes;
use url::Url;
use web_transport::tauri::desktop::{SendPlan, Session, WebTransport};
use web_transport::tauri::error::Error;
use web_transport::tauri::rpc::{
    CloseRequest, CloseResponse, CongestionControl, ConnectRequest, ConnectResponse, OpenResponse,
};
use web_transport::text::HexError;
use web_transport::wasm::recv::{ReadStep, RecvStream};
use web_transport::wasm::send::{closed, reset_reason, Error as BrowserError};

fn request(hashes: Option<Vec<&str>>) -> ConnectRequest {
    ConnectRequest {
        url: Url::parse("https://example.com").unwrap(),
        congestion_control: None,
        server_certificate_hashes: hashes
            .map(|hashes| hashes.into_iter().map(|hash| hash.to_string()).collect()),
    }
}

#[test]
fn certificate_hashes_are_hexadecimal() {
    let plan = WebTransport::<()>::plan(&request(Some(vec!["00fF", "", "a1"])))
        .ok()
        .unwrap();
    assert_eq!(
        plan.server_certificate_hashes,
        Some(vec![vec![0x00, 0xff], vec![], vec![0xa1]])
    );
    let plan = WebTransport::<()>::plan(&request(None)).ok().unwrap();
    assert_eq!(plan.server_certificate_hashes, None);
}

#[test]
fn first_bad_hash_is_reported() {
    assert!(matches!(
        WebTransport::<()>::plan(&request(Some(vec!["00", "abc", "zz"]))),
        Err(Error::Hex(HexError::OddLength))
    ));
    assert!(matches!(
        WebTransport::<()>::plan(&request(Some(vec!["00", "0g", "abc"]))),
        Err(Error::Hex(HexError::InvalidHexCharacter { c: 'g', index: 1 }))
    ));
    assert!(matches!(
        Error::from(HexError::OddLength),
        Error::Hex(HexError::OddLength)
    ));
}

#[test]
fn congestion_control_is_handed_on() {
    for (wanted, given) in [
        (None, CongestionControl::Default),
        (Some(CongestionControl::Default), CongestionControl::Default),
        (
            Some(CongestionControl::LowLatency),
            CongestionControl::LowLatency,
        ),
        (
            Some(CongestionControl::Throughput),
            CongestionControl::Throughput,
        ),
    ] {
        let mut payload = request(None);
        payload.congestion_control = wanted;
        let plan = WebTransport::<()>::plan(&payload).ok().unwrap();
        assert_eq!(plan.congestion_control, given);
    }
}

#[test]
fn sessions_are_found_until_they_are_closed() {
    let mut plugin = WebTransport::new();
    assert!(matches!(plugin.get(0), Err(Error::NoSession)));
    assert_eq!(
        plugin.connect("a").ok().unwrap(),
        ConnectResponse { session: 0 }
    );
    assert_eq!(plugin.connect("b").ok().unwrap().session, 1);
    assert_eq!(plugin.get(0).ok().unwrap(), &"a");
    let (close, CloseResponse {}) = plugin
        .close(CloseRequest {
            session: 0,
            code: 3,
            reason: None,
        })
        .ok()
        .unwrap();
    assert_eq!((close.session, close.code), ("a", 3));
    assert_eq!(close.reason, "");
    assert!(matches!(plugin.get(0), Err(Error::NoSession)));
    assert_eq!(plugin.get(1).ok().unwrap(), &"b");
    assert!(matches!(
        plugin.close(CloseRequest {
            session: 0,
            code: 3,
            reason: None,
        }),
        Err(Error::NoSession)
    ));
    let (close, _) = plugin
        .close(CloseRequest {
            session: 1,
            code: 0,
            reason: Some("bye".to_string()),
        })
        .ok()
        .unwrap();
    assert_eq!(close.reason, "bye");
    assert_eq!(plugin.connect("c").ok().unwrap().session, 2);
}

#[test]
fn numbers_are_given_once() {
    let mut plugin = WebTransport::new();
    let mut streams = Session::<usize, usize>::new();
    for i in 0..20 {
        assert_eq!(plugin.connect(i).ok().unwrap().session, i);
        if i % 3 != 0 {
            let request = CloseRequest {
                session: i,
                code: 0,
                reason: None,
            };
            assert!(plugin.close(request).is_ok());
        }
        assert_eq!(streams.create_uni(i), 2 * i);
        streams.reset(2 * i);
        assert_eq!(streams.accept_bi(i, i), 2 * i + 1);
    }
}

#[test]
fn streams_are_numbered() {
    let mut session = Session::new();
    assert_eq!(session.accept_bi("s0", "r0"), 0);
    assert_eq!(session.accept_uni("r1"), 1);
    assert_eq!(session.create_bi("s2", "r2"), 2);
    assert_eq!(session.create_uni("s3"), 3);
    assert!(matches!(session.recv(3), Err(Error::NoStream)));
    assert_eq!(session.recv(1).ok().unwrap(), "r1");
    assert!(matches!(
        session.send(1, &Bytes::from_static(b"x")),
        Err(Error::NoStream)
    ));
    assert_eq!(session.reset(0), (Some("s0"), Some("r0")));
    assert_eq!(session.reset(0), (None, None));
    assert_eq!(session.reset(3), (Some("s3"), None));
}

#[test]
fn stream_in_use_is_not_found() {
    let mut session = Session::<&str, &str>::new();
    let id = session.accept_uni("recv");
    let recv = session.recv(id).ok().unwrap();
    assert!(matches!(session.recv(id), Err(Error::NoStream)));
    session.received(id, recv, &Some(Bytes::from_static(b"data")));
    let recv = session.recv(id).ok().unwrap();
    session.received(id, recv, &None);
    assert!(matches!(session.recv(id), Err(Error::NoStream)));
}

#[test]
fn no_data_finishes_a_stream() {
    let mut session = Session::<&str, &str>::new();
    let id = session.create_uni("send");
    match session.send(id, &Bytes::from_static(b"data")) {
        Ok(SendPlan::Write(send)) => session.sent(id, send),
        _ => panic!("there is data"),
    }
    assert!(matches!(
        session.send(id, &Bytes::new()),
        Ok(SendPlan::Finish("send"))
    ));
    assert!(matches!(
        session.send(id, &Bytes::new()),
        Err(Error::NoStream)
    ));
}

#[test]
fn responses_have_defaults() {
    assert_eq!(ConnectResponse::default().session, 0);
    assert_eq!(OpenResponse::default().stream, 0);
    assert_eq!(CloseResponse::default(), CloseResponse {});
}

#[test]
fn browser_chunks_are_cut_to_size() {
    let mut stream = RecvStream::new();
    assert!(matches!(stream.read_chunk(2), ReadStep::Read));
    let chunk = stream.received(Some(b"abcde".to_vec()), 2).unwrap();
    assert_eq!(&chunk[..], b"ab");
    match stream.read_chunk(2) {
        ReadStep::Return(chunk) => assert_eq!(&chunk[..], b"cd"),
        ReadStep::Read => panic!("there is data"),
    }
    match stream.read_chunk(9) {
        ReadStep::Return(chunk) => assert_eq!(&chunk[..], b"e"),
        ReadStep::Read => panic!("there is data"),
    }
    assert!(matches!(stream.read_chunk(2), ReadStep::Read));
    let chunk = stream.received(Some(b"f".to_vec()), 2).unwrap();
    assert_eq!(&chunk[..], b"f");
    assert!(matches!(stream.read_chunk(2), ReadStep::Read));
    assert!(stream.received(None, 2).is_none());
}

#[test]
fn browser_errors_give_their_code() {
    assert!(matches!(closed(Ok(())), Ok(None)));
    assert!(matches!(
        closed(Err(BrowserError::Stream {
            code: Some(8),
            message: "stop".to_string()
        })),
        Ok(Some(8))
    ));
    assert!(matches!(
        closed(Err(BrowserError::Stream {
            code: None,
            message: "stop".to_string()
        })),
        Err(BrowserError::Stream { code: None, .. })
    ));
    assert!(matches!(
        closed(Err(BrowserError::Other("x".to_string()))),
        Err(BrowserError::Other(_))
    ));
    assert_eq!(reset_reason(0), "code = 0");
    assert_eq!(reset_reason(4294967295), "code = 4294967295");
}
