use web_transport::address::{connect_target, target};
use web_transport::client;
use web_transport::connect::ConnectError;
use web_transport::error::IoError;
use web_transport::ez::client::{first_remote, ClientBuilder};
use web_transport::ez::server::{
    run_socket, QuicListener, ServerBuilder, ServerInit, ServerWithListener, SocketAction,
    SocketEvent,
};
use web_transport::ez::settings::{CertificateKind, CertificatePath, DefaultMetrics, Settings};
use web_transport::server;
use web_transport::server::{accept, AcceptAction, AcceptEvent};

type Client = ClientBuilder<u32, &'static str, &'static str>;
type DefaultClient = ClientBuilder<u32, DefaultMetrics, &'static str>;

fn path() -> CertificatePath<'static> {
    CertificatePath {
        cert: "cert.pem",
        private_key: "key.pem",
        kind: CertificateKind::RawPublicKey,
    }
}

#[test]
fn client_verifies_the_peer() {
    let builder = Client::with_metrics("metrics");
    assert!(builder.settings.verify_peer);
    assert_eq!(builder.settings.quic, None);
    assert_eq!(builder.metrics, "metrics");
    assert!(builder.tls.is_none());
    assert_eq!(builder.bind(), Some("[::]:0"));
    let builder = DefaultClient::default().with_socket("socket");
    assert_eq!(builder.bind(), None);
    let dial = builder.connect(Ok(vec![5, 6])).ok().unwrap();
    assert_eq!(dial.remote, 5);
    assert_eq!(dial.socket, "socket");
    assert!(!dial.warn);
}

#[test]
fn client_warns_without_verification() {
    let builder = DefaultClient::default()
        .with_settings(Settings::default())
        .with_cert(path())
        .with_socket("socket");
    let dial = builder.connect(Ok(vec![5])).ok().unwrap();
    assert!(dial.warn);
    assert_eq!(
        dial.tls,
        Some((
            "cert.pem".to_string(),
            "key.pem".to_string(),
            CertificateKind::RawPublicKey
        ))
    );
}

#[test]
fn first_address_of_a_host_is_used() {
    assert!(matches!(first_remote(Ok(vec![1, 2])), Ok(1)));
    match first_remote::<u8>(Ok(vec![])) {
        Err(IoError::HostUnreachable(text)) => assert_eq!(text, "no addresses found for host"),
        _ => panic!("there is no address"),
    }
    match first_remote::<u8>(Err("no such host".to_string())) {
        Err(IoError::HostUnreachable(text)) => assert_eq!(text, "no such host"),
        _ => panic!("there is no address"),
    }
}

#[test]
fn session_client_builds_on_the_quic_client() {
    type Session = client::ClientBuilder<u32, (), &'static str>;
    let builder = Session::with_metrics(())
        .with_settings(Settings {
            verify_peer: false,
            quic: Some(7),
        })
        .with_cert(path())
        .with_socket("socket");
    let dial = builder.connect(Ok(vec![1])).ok().unwrap();
    assert_eq!(dial.settings.quic, Some(7));
    assert!(dial.warn);
    type Default = client::ClientBuilder<u32, DefaultMetrics, &'static str>;
    let builder = Default::default().with_socket("socket");
    assert!(matches!(
        builder.connect::<u8>(Err("x".to_string())),
        Err(client::ClientError::Io(IoError::HostUnreachable(_)))
    ));
    assert!(matches!(
        client::ClientError::from(ConnectError::UnexpectedEnd),
        client::ClientError::Connect(ConnectError::UnexpectedEnd)
    ));
}

#[test]
fn address_gives_host_and_port() {
    assert_eq!(
        connect_target("https://example.com/chat"),
        Some(("example.com".to_string(), 443))
    );
    assert_eq!(
        connect_target("https://example.com:4443/"),
        Some(("example.com".to_string(), 4443))
    );
    assert_eq!(
        connect_target("https://[::1]:8443"),
        Some(("[::1]".to_string(), 8443))
    );
    assert_eq!(
        connect_target("https://EXAMPLE.com"),
        Some(("example.com".to_string(), 443))
    );
    assert_eq!(connect_target("data:text/plain,hi"), None);
    assert_eq!(connect_target("not an address"), None);
    assert_eq!(target(None, Some(1)), None);
    assert_eq!(
        target(Some("a".to_string()), Some(1)),
        Some(("a".to_string(), 1))
    );
}

#[test]
fn default_has_default_metrics() {
    let a = ServerBuilder::<u32, _>::with_metrics(DefaultMetrics);
    let b = ServerBuilder::<u32>::default();
    assert_eq!(a.metrics, b.metrics);
    assert_eq!((a.settings.quic, b.settings.quic), (None, None));
    assert!(!a.settings.verify_peer && !b.settings.verify_peer);
    let a = DefaultClient::with_metrics(DefaultMetrics);
    let b = DefaultClient::default();
    assert_eq!(a.metrics, b.metrics);
    assert_eq!((a.settings.quic, b.settings.quic), (None, None));
    assert!(a.settings.verify_peer && b.settings.verify_peer);
    assert!(a.socket.is_none() && b.socket.is_none());
    assert!(a.tls.is_none() && b.tls.is_none());
}

#[test]
fn server_numbers_its_sockets() {
    let builder = ServerBuilder::<u32, &'static str>::with_metrics("metrics");
    assert!(!builder.settings.verify_peer);
    let builder = builder
        .with_settings(Settings {
            verify_peer: true,
            quic: Some(3),
        })
        .with_socket("a")
        .with_socket("b")
        .with_listener(QuicListener {
            socket: "c",
            socket_cookie: 77,
        })
        .with_socket("d");
    let cookies: Vec<u64> = builder
        .state
        .listeners
        .iter()
        .map(|listener| listener.socket_cookie)
        .collect();
    assert_eq!(cookies, vec![0, 1, 77, 3]);
    assert_eq!(builder.settings.quic, Some(3));
    assert_eq!(builder.metrics, "metrics");
    let builder = builder.with_settings(Settings::default());
    assert_eq!(builder.settings.quic, None);
    assert!(ServerWithListener::<u8>::default().listeners.is_empty());
    let ServerInit {} = ServerInit::default();
}

#[test]
fn session_server_builds_on_the_quic_server() {
    type Session = server::ServerBuilder<u32, u8>;
    assert!(!server::ServerBuilder::<u32>::default().0.settings.verify_peer);
    let builder = Session::new(9)
        .with_settings(Settings {
            verify_peer: true,
            quic: Some(1),
        })
        .with_listener(QuicListener {
            socket: "a",
            socket_cookie: 4,
        })
        .with_socket("b")
        .with_listener(QuicListener {
            socket: "c",
            socket_cookie: 5,
        });
    assert_eq!(builder.0.metrics, 9);
    assert_eq!(builder.0.state.listeners.len(), 3);
    assert_eq!(builder.0.state.listeners[1].socket_cookie, 1);
    let builder = builder.with_settings(Settings::default());
    assert_eq!(builder.0.settings.quic, None);
    assert_eq!(Session::new(1).with_socket("x").0.state.listeners.len(), 1);
    assert!(matches!(
        server::ServerError::from(IoError::Other("x".to_string())),
        server::ServerError::Io(_)
    ));
    assert!(matches!(
        server::ServerError::from(ConnectError::Status(404)),
        server::ServerError::Connect(ConnectError::Status(404))
    ));
}

#[test]
fn failed_handshakes_are_ignored() {
    type Event = AcceptEvent<&'static str, u8, &'static str>;
    assert!(matches!(
        accept(Event::Connected("conn")),
        AcceptAction::Start("conn")
    ));
    assert!(matches!(
        accept(Event::Handshake(Err("bad"))),
        AcceptAction::Ignore("bad")
    ));
    assert!(matches!(
        accept(Event::Handshake(Ok(1))),
        AcceptAction::Return(Some(1))
    ));
    assert!(matches!(
        accept(Event::Exhausted),
        AcceptAction::Return(None)
    ));
}

#[test]
fn socket_runs_until_it_is_closed() {
    type Event = SocketEvent<u8, &'static str>;
    assert!(matches!(
        run_socket(Event::Initial(Some(Ok(1)))),
        SocketAction::Start(1)
    ));
    assert!(matches!(
        run_socket(Event::Delivered(true)),
        SocketAction::Next
    ));
    assert!(matches!(
        run_socket(Event::Delivered(false)),
        SocketAction::Return(Ok(()))
    ));
    assert!(matches!(
        run_socket(Event::Initial(Some(Err("bad")))),
        SocketAction::Return(Err("bad"))
    ));
    assert!(matches!(
        run_socket(Event::Initial(None)),
        SocketAction::Return(Ok(()))
    ));
}
