//! How clients and servers come about: what an application asks for is what is used, and everything
//! else is a default.

use url::Url;
use vstd::prelude::*;

use crate::address;
use crate::client;
use crate::connect::{Connect, ConnectError};
use crate::error::IoError;
use crate::ez::client::{first_remote, ClientBuilder, Dial};
use crate::ez::server::{
    run_socket, QuicListener, ServerBuilder, ServerWithListener, SocketAction, SocketEvent,
};
use crate::ez::settings::{CertificatePath, Settings};
use crate::ez::stream::StreamId;
use crate::proto;
use crate::server;
use crate::server::{accept, AcceptAction, AcceptEvent};

verus! {

/// A request is accepted exactly if the status of its response says that all is well; any other
/// status is an error that says which. What was exchanged is what the request holds: its address,
/// its stream, whose identifier is that of the session, and both sides of the stream.
pub proof fn request_is_accepted_by_its_status<S, R>(
    url: Url,
    id: StreamId,
    send: S,
    recv: R,
    status: u16,
    opened: Result<Connect<S, R>, ConnectError>,
    accepted: Connect<S, R>,
    session: u64,
    address: &Url,
    sides: (S, R),
)
    requires
        call_ensures(Connect::<S, R>::open, (url, id, send, recv, status), opened),
        call_ensures(Connect::<S, R>::accept, (url, id, send, recv), accepted),
        id.0 < proto::VARINT_LIMIT,
        call_ensures(Connect::<S, R>::session_id, (&accepted,), session),
        call_ensures(Connect::<S, R>::url, (&accepted,), address),
        call_ensures(Connect::<S, R>::into_inner, (accepted,), sides),
    ensures
        opened is Ok <==> status == 200,
        opened is Err ==> opened->Err_0 == ConnectError::Status(status),
        opened matches Ok(connect) ==> {
            &&& connect.address() == accepted.address()
            &&& connect.stream() == accepted.stream()
            &&& connect.sides() == accepted.sides()
        },
        session == id.0,
        *address == url,
        sides == (send, recv),
{
}

/// The response to a request has the bytes of its status, and its stream can be written to without
/// touching the rest.
pub proof fn response_has_its_status<S, R>(
    connect: &mut Connect<S, R>,
    status: u16,
    bytes: Vec<u8>,
    send: &mut S,
)
    requires
        100 <= status <= 999,
        call_ensures(Connect::<S, R>::respond, (&*connect, status), bytes),
        call_ensures(Connect::<S, R>::send, (connect,), send),
    ensures
        bytes@ == proto::connect_response(status),
        *old(send) == old(connect).sides().0,
        final(connect).sides() == (*final(send), old(connect).sides().1),
        final(connect).address() == old(connect).address(),
        final(connect).stream() == old(connect).stream(),
{
}

/// A client connects to the host of an address, on the port that the address names, whatever it is,
/// and on port 443 if it names none. An address without a host leads nowhere.
pub proof fn address_leads_to_host_and_port(
    text: &str,
    found: Option<(String, u16)>,
    host: Option<String>,
    port: Option<u16>,
    res: Option<(String, u16)>,
)
    requires
        call_ensures(address::connect_target, (text,), found),
        call_ensures(address::target, (host, port), res),
    ensures
        found is Some <==> address::url_parts(text@) is Some && (address::url_parts(
            text@,
        )->0).0 is Some,
        found matches Some((name, number)) ==> {
            &&& (address::url_parts(text@)->0).0 == Some(name@)
            &&& (address::url_parts(text@)->0).1 matches Some(p) ==> number == p
            &&& (address::url_parts(text@)->0).1 is None ==> number == 443
        },
        res is Some <==> host is Some,
        res matches Some((name, number)) ==> {
            &&& host == Some(name)
            &&& port matches Some(p) ==> number == p
            &&& port is None ==> number == 443
        },
{
}

/// Of the addresses of a host the first one is used; a host that is not found, or has none, cannot
/// be reached, and the error says so.
pub proof fn first_address_is_used<A>(
    lookup: Result<Vec<A>, String>,
    remote: Result<A, IoError>,
)
    requires
        call_ensures(first_remote::<A>, (lookup,), remote),
    ensures
        remote is Ok <==> lookup is Ok && lookup->Ok_0@.len() > 0,
        remote matches Ok(first) ==> first == lookup->Ok_0@[0],
        lookup matches Err(text) ==> remote == Err::<A, _>(IoError::HostUnreachable(text)),
        lookup is Ok && lookup->Ok_0@.len() == 0 ==> (remote matches Err(
            IoError::HostUnreachable(text),
        ) && text@ == "no addresses found for host"@),
{
}

/// A client connects with what its builder holds: its socket, settings, certificate and metrics,
/// to the first address of the host; it warns exactly if the certificate of the peer is not
/// verified. Without a socket it binds one on a port of the system's choice.
pub proof fn client_connects_as_built<Q, M, K, A>(
    builder: ClientBuilder<Q, M, K>,
    lookup: Result<Vec<A>, String>,
    dial: Result<Dial<Q, M, K, A>, IoError>,
    remote: Result<A, IoError>,
    bind: Option<&'static str>,
    session: client::ClientBuilder<Q, M, K>,
    session_dial: Result<Dial<Q, M, K, A>, client::ClientError>,
)
    requires
        builder.socket is Some,
        call_ensures(ClientBuilder::<Q, M, K>::connect::<A>, (builder, lookup), dial),
        call_ensures(first_remote::<A>, (lookup,), remote),
        call_ensures(ClientBuilder::<Q, M, K>::bind, (&builder,), bind),
        session.0 == builder,
        call_ensures(
            client::ClientBuilder::<Q, M, K>::connect::<A>,
            (session, lookup),
            session_dial,
        ),
    ensures
        dial is Ok <==> remote is Ok,
        dial matches Ok(d) ==> {
            &&& d.remote == lookup->Ok_0@[0]
            &&& Some(d.socket) == builder.socket
            &&& d.settings == builder.settings
            &&& d.tls == builder.tls
            &&& d.metrics == builder.metrics
            &&& d.warn <==> !builder.settings.verify_peer
        },
        lookup matches Err(text) ==> dial matches Err(IoError::HostUnreachable(t)) && t == text,
        bind is None,
        session_dial is Ok <==> dial is Ok,
        session_dial matches Ok(d) ==> dial is Ok && d.remote == dial->Ok_0.remote && d.settings
            == dial->Ok_0.settings && d.socket == dial->Ok_0.socket && d.tls == dial->Ok_0.tls
            && d.metrics == dial->Ok_0.metrics && d.warn == dial->Ok_0.warn,
        session_dial matches Err(err) ==> err is Io,
{
}

/// What is set on the builder of a client is kept, each thing on its own, and the last setting
/// counts; a new builder verifies the peer and has nothing else set.
pub proof fn client_keeps_what_is_set<Q, M, K>(
    metrics: M,
    new: ClientBuilder<Q, M, K>,
    builder: ClientBuilder<Q, M, K>,
    socket: K,
    with_socket: ClientBuilder<Q, M, K>,
    settings: Settings<Q>,
    with_settings: ClientBuilder<Q, M, K>,
    cert: CertificatePath<'static>,
    with_cert: ClientBuilder<Q, M, K>,
    unbound: Option<&'static str>,
)
    requires
        call_ensures(ClientBuilder::<Q, M, K>::with_metrics, (metrics,), new),
        call_ensures(ClientBuilder::<Q, M, K>::with_socket, (builder, socket), with_socket),
        call_ensures(ClientBuilder::<Q, M, K>::with_settings, (builder, settings), with_settings),
        call_ensures(ClientBuilder::<Q, M, K>::with_cert, (builder, cert), with_cert),
        call_ensures(ClientBuilder::<Q, M, K>::bind, (&new,), unbound),
    ensures
        new.settings.verify_peer,
        new.settings.quic is None,
        new.socket is None,
        new.tls is None,
        new.metrics == metrics,
        unbound is Some && unbound->0@ == "[::]:0"@,
        with_socket.socket == Some(socket),
        with_socket.settings == builder.settings,
        with_socket.tls == builder.tls,
        with_socket.metrics == builder.metrics,
        with_settings.settings == settings,
        with_settings.socket == builder.socket,
        with_settings.tls == builder.tls,
        with_settings.metrics == builder.metrics,
        with_cert.tls is Some,
        (with_cert.tls->0).0@ == cert.cert@,
        (with_cert.tls->0).1@ == cert.private_key@,
        (with_cert.tls->0).2 == cert.kind,
        with_cert.socket == builder.socket,
        with_cert.settings == builder.settings,
        with_cert.metrics == builder.metrics,
{
}

/// The builder of a session's client sets what that of the QUIC client sets.
pub proof fn session_client_is_built_alike<Q, M, K>(
    builder: client::ClientBuilder<Q, M, K>,
    metrics: M,
    new: (client::ClientBuilder<Q, M, K>, ClientBuilder<Q, M, K>),
    socket: K,
    with_socket: (client::ClientBuilder<Q, M, K>, ClientBuilder<Q, M, K>),
    settings: Settings<Q>,
    with_settings: (client::ClientBuilder<Q, M, K>, ClientBuilder<Q, M, K>),
    cert: CertificatePath<'static>,
    with_cert: (client::ClientBuilder<Q, M, K>, ClientBuilder<Q, M, K>),
)
    requires
        call_ensures(client::ClientBuilder::<Q, M, K>::with_metrics, (metrics,), new.0),
        call_ensures(ClientBuilder::<Q, M, K>::with_metrics, (metrics,), new.1),
        call_ensures(
            client::ClientBuilder::<Q, M, K>::with_socket,
            (builder, socket),
            with_socket.0,
        ),
        call_ensures(ClientBuilder::<Q, M, K>::with_socket, (builder.0, socket), with_socket.1),
        call_ensures(
            client::ClientBuilder::<Q, M, K>::with_settings,
            (builder, settings),
            with_settings.0,
        ),
        call_ensures(
            ClientBuilder::<Q, M, K>::with_settings,
            (builder.0, settings),
            with_settings.1,
        ),
        call_ensures(client::ClientBuilder::<Q, M, K>::with_cert, (builder, cert), with_cert.0),
        call_ensures(ClientBuilder::<Q, M, K>::with_cert, (builder.0, cert), with_cert.1),
    ensures
        new.0.0 == new.1,
        with_socket.0.0 == with_socket.1,
        with_settings.0.0 == with_settings.1,
        with_cert.0.0.settings == with_cert.1.settings,
        with_cert.0.0.socket == with_cert.1.socket,
        with_cert.0.0.metrics == with_cert.1.metrics,
        with_cert.0.0.tls is Some && with_cert.1.tls is Some,
        (with_cert.0.0.tls->0).0@ == (with_cert.1.tls->0).0@,
        (with_cert.0.0.tls->0).1@ == (with_cert.1.tls->0).1@,
        (with_cert.0.0.tls->0).2 == (with_cert.1.tls->0).2,
{
}

/// A server listens on every socket and listener that it was given, in the order in which they
/// came; a socket is told apart by how many came before it, a listener keeps its own cookie.
/// Settings and metrics are kept, and the last settings count.
pub proof fn server_listens_on_everything<Q, M, K>(
    new: ServerBuilder<Q, M>,
    socket: K,
    one: ServerBuilder<Q, M, ServerWithListener<K>>,
    listener: QuicListener<K>,
    one_listener: ServerBuilder<Q, M, ServerWithListener<K>>,
    builder: ServerBuilder<Q, M, ServerWithListener<K>>,
    more: ServerBuilder<Q, M, ServerWithListener<K>>,
    more_listeners: ServerBuilder<Q, M, ServerWithListener<K>>,
    settings: Settings<Q>,
    set: ServerBuilder<Q, M, ServerWithListener<K>>,
    set_new: ServerBuilder<Q, M>,
)
    requires
        call_ensures(ServerBuilder::<Q, M>::with_socket::<K>, (new, socket), one),
        call_ensures(ServerBuilder::<Q, M>::with_listener::<K>, (new, listener), one_listener),
        builder.state.listeners@.len() <= u64::MAX,
        call_ensures(
            ServerBuilder::<Q, M, ServerWithListener<K>>::with_socket,
            (builder, socket),
            more,
        ),
        call_ensures(
            ServerBuilder::<Q, M, ServerWithListener<K>>::with_listener,
            (builder, listener),
            more_listeners,
        ),
        call_ensures(
            ServerBuilder::<Q, M, ServerWithListener<K>>::with_settings,
            (builder, settings),
            set,
        ),
        call_ensures(ServerBuilder::<Q, M>::with_settings, (new, settings), set_new),
    ensures
        one.state.listeners@.len() == 1,
        one.state.listeners@[0].socket == socket,
        one.state.listeners@[0].socket_cookie == 0,
        one.settings == new.settings,
        one.metrics == new.metrics,
        one_listener.state.listeners@.len() == 1,
        one_listener.state.listeners@[0] == listener,
        one_listener.settings == new.settings,
        one_listener.metrics == new.metrics,
        more.state.listeners@.len() == builder.state.listeners@.len() + 1,
        more.state.listeners@.drop_last() == builder.state.listeners@,
        more.state.listeners@.last().socket == socket,
        more.state.listeners@.last().socket_cookie == builder.state.listeners@.len(),
        more.settings == builder.settings,
        more.metrics == builder.metrics,
        more_listeners.state.listeners@.drop_last() == builder.state.listeners@,
        more_listeners.state.listeners@.last() == listener,
        more_listeners.state.listeners@.len() == builder.state.listeners@.len() + 1,
        more_listeners.settings == builder.settings,
        more_listeners.metrics == builder.metrics,
        set.settings == settings,
        set.state.listeners@ == builder.state.listeners@,
        set.metrics == builder.metrics,
        set_new.settings == settings,
        set_new.metrics == new.metrics,
{
    assert(more.state.listeners@.drop_last() =~= builder.state.listeners@);
    assert(more_listeners.state.listeners@.drop_last() =~= builder.state.listeners@);
}

/// The builder of a session's server listens as that of the QUIC server does; a new one has default
/// settings, which do not verify the peer.
pub proof fn session_server_is_built_alike<Q, M, K>(
    metrics: M,
    made: server::ServerBuilder<Q, M>,
    quic: ServerBuilder<Q, M>,
    new: server::ServerBuilder<Q, M>,
    socket: K,
    one: server::ServerBuilder<Q, M, ServerWithListener<K>>,
    listener: QuicListener<K>,
    one_listener: server::ServerBuilder<Q, M, ServerWithListener<K>>,
    builder: server::ServerBuilder<Q, M, ServerWithListener<K>>,
    more: server::ServerBuilder<Q, M, ServerWithListener<K>>,
    more_listeners: server::ServerBuilder<Q, M, ServerWithListener<K>>,
    settings: Settings<Q>,
    set: server::ServerBuilder<Q, M, ServerWithListener<K>>,
    set_new: server::ServerBuilder<Q, M>,
)
    requires
        call_ensures(server::ServerBuilder::<Q, M>::new, (metrics,), made),
        call_ensures(ServerBuilder::<Q, M>::with_metrics, (metrics,), quic),
        call_ensures(server::ServerBuilder::<Q, M>::with_socket::<K>, (new, socket), one),
        call_ensures(
            server::ServerBuilder::<Q, M>::with_listener::<K>,
            (new, listener),
            one_listener,
        ),
        builder.0.state.listeners@.len() <= u64::MAX,
        call_ensures(
            server::ServerBuilder::<Q, M, ServerWithListener<K>>::with_socket,
            (builder, socket),
            more,
        ),
        call_ensures(
            server::ServerBuilder::<Q, M, ServerWithListener<K>>::with_listener,
            (builder, listener),
            more_listeners,
        ),
        call_ensures(
            server::ServerBuilder::<Q, M, ServerWithListener<K>>::with_settings,
            (builder, settings),
            set,
        ),
        call_ensures(server::ServerBuilder::<Q, M>::with_settings, (new, settings), set_new),
    ensures
        made.0.metrics == metrics,
        !made.0.settings.verify_peer,
        made.0.settings.quic is None,
        quic.metrics == metrics,
        !quic.settings.verify_peer,
        quic.settings.quic is None,
        one.0.state.listeners@.len() == 1,
        one.0.state.listeners@[0].socket == socket,
        one.0.state.listeners@[0].socket_cookie == 0,
        one.0.settings == new.0.settings,
        one.0.metrics == new.0.metrics,
        one_listener.0.state.listeners@.len() == 1,
        one_listener.0.state.listeners@[0] == listener,
        one_listener.0.settings == new.0.settings,
        one_listener.0.metrics == new.0.metrics,
        more.0.state.listeners@.len() == builder.0.state.listeners@.len() + 1,
        more.0.state.listeners@.drop_last() == builder.0.state.listeners@,
        more.0.state.listeners@.last().socket == socket,
        more.0.state.listeners@.last().socket_cookie == builder.0.state.listeners@.len(),
        more.0.settings == builder.0.settings,
        more.0.metrics == builder.0.metrics,
        more_listeners.0.state.listeners@.drop_last() == builder.0.state.listeners@,
        more_listeners.0.state.listeners@.last() == listener,
        more_listeners.0.state.listeners@.len() == builder.0.state.listeners@.len() + 1,
        more_listeners.0.settings == builder.0.settings,
        more_listeners.0.metrics == builder.0.metrics,
        set.0.settings == settings,
        set.0.state.listeners@ == builder.0.state.listeners@,
        set.0.metrics == builder.0.metrics,
        set_new.0.settings == settings,
        set_new.0.metrics == new.0.metrics,
{
    assert(more.0.state.listeners@.drop_last() =~= builder.0.state.listeners@);
    assert(more_listeners.0.state.listeners@.drop_last() =~= builder.0.state.listeners@);
}

/// Every client that connects is served, as long as the socket lives and the server accepts: a
/// socket is given up only once it is closed or failed, with its error, or once nobody accepts.
pub proof fn every_client_is_served<C, E>(
    event: SocketEvent<C, E>,
    action: SocketAction<C, E>,
    conn: C,
    err: E,
)
    requires
        call_ensures(run_socket::<C, E>, (event,), action),
    ensures
        event == SocketEvent::<C, E>::Initial(Some(Ok(conn))) <==> action == SocketAction::<
            C,
            E,
        >::Start(conn),
        event == SocketEvent::<C, E>::Delivered(true) <==> action == SocketAction::<C, E>::Next,
        event == SocketEvent::<C, E>::Initial(Some(Err(err))) <==> action == SocketAction::<
            C,
            E,
        >::Return(Err(err)),
        event == SocketEvent::<C, E>::Initial(None) || event == SocketEvent::<C, E>::Delivered(
            false,
        ) <==> action == SocketAction::<C, E>::Return(Ok(())),
{
}

/// Every connection gets its handshake, and the first request whose handshake succeeds is the one
/// that is accepted; a handshake that fails stops nothing, and without one under way there is no
/// request.
pub proof fn every_handshake_is_waited_for<C, R, E>(
    event: AcceptEvent<C, R, E>,
    action: AcceptAction<C, R, E>,
    conn: C,
    request: R,
    err: E,
)
    requires
        call_ensures(accept::<C, R, E>, (event,), action),
    ensures
        event == AcceptEvent::<C, R, E>::Connected(conn) <==> action == AcceptAction::<
            C,
            R,
            E,
        >::Start(conn),
        event == AcceptEvent::<C, R, E>::Handshake(Ok(request)) <==> action == AcceptAction::<
            C,
            R,
            E,
        >::Return(Some(request)),
        event == AcceptEvent::<C, R, E>::Handshake(Err(err)) <==> action == AcceptAction::<
            C,
            R,
            E,
        >::Ignore(err),
        event == AcceptEvent::<C, R, E>::Exhausted <==> action == AcceptAction::<C, R, E>::Return(
            None,
        ),
{
}

/// The default settings do not verify the peer and have nothing else set; a server that has no
/// listener yet listens on nothing.
pub proof fn defaults_are_empty<Q, K>(
    settings: Settings<Q>,
    listeners: ServerWithListener<K>,
)
    requires
        call_ensures(<Settings::<Q> as Default>::default, (), settings),
        call_ensures(<ServerWithListener::<K> as Default>::default, (), listeners),
    ensures
        !settings.verify_peer,
        settings.quic is None,
        listeners.listeners@.len() == 0,
{
}

} // verus!
