//! The protocol engine: `quinn_proto::Endpoint`, reached through one
//! contract per method, and a journal of what this library has asked of it.

use crate::address::{IpAddr, SocketAddr};
use quinn_proto::DatagramEvent;
use std::sync::Arc;
use std::time::Instant;
use vstd::prelude::*;

verus! {

#[verifier::external_type_specification]
#[verifier::external_body]
pub struct ExEndpointEvent(quinn_proto::EndpointEvent);

#[verifier::external_type_specification]
#[verifier::external_body]
pub struct ExConnectionEvent(quinn_proto::ConnectionEvent);

#[verifier::external_type_specification]
#[verifier::external_body]
pub struct ExTransmit(quinn_proto::Transmit);

#[verifier::external_type_specification]
#[verifier::external_body]
pub struct ExConnectError(quinn_proto::ConnectError);

#[verifier::external_type_specification]
#[verifier::external_body]
pub struct ExInstant(Instant);

/// The state machine of `quinn_proto`, which this library drives and never
/// looks into. `quinn_proto::Endpoint` is generic over its cryptography, by a
/// trait of that crate, so the verifier cannot be told of the type itself:
/// it is kept behind this struct, opaque in proofs, and all that proofs know
/// of it is `engine_connections`.
#[verifier::external_body]
pub struct Machine {
    inner: quinn_proto::Endpoint,
}

/// The protocol state of one connection, as the engine hands it out. The
/// library passes it on to whoever runs the connection, and never looks
/// into it: the struct is opaque in proofs.
#[verifier::external_body]
pub struct Connection {
    pub inner: quinn_proto::Connection,
}

/// What the engine is made from: the settings shared by all connections and
/// those of each direction. The library hands them to the engine as they
/// are: the struct is opaque in proofs.
#[verifier::external_body]
pub struct Config {
    pub client_config: quinn_proto::ClientConfig,
    pub server_config: Arc<quinn_proto::ServerConfig>,
    pub endpoint_config: Arc<quinn_proto::EndpointConfig>,
}

/// What the engine made of one datagram, where it made anything of it.
pub enum Datagram {
    /// The datagram belongs to the connection `handle`, already known to the
    /// engine; `event` carries it there.
    ConnectionEvent { handle: usize, event: quinn_proto::ConnectionEvent },
    /// The datagram opened the connection `handle`.
    NewConnection { handle: usize, connection: Connection },
}

/// The handles of the connections that an engine holds: those it has created
/// and has not yet been told are drained.
pub uninterp spec fn engine_connections(engine: Machine) -> Set<usize>;

/// Whether an event is the last one of its connection.
pub uninterp spec fn event_is_drained(event: quinn_proto::EndpointEvent) -> bool;

/// `Endpoint::new`, as a server: the engine starts with an empty table of
/// connections.
#[verifier::external_body]
fn engine_new(config: &Config) -> (engine: Machine)
    ensures
        engine_connections(engine) == Set::<usize>::empty(),
{
    Machine {
        inner: quinn_proto::Endpoint::new(
            config.endpoint_config.clone(),
            Some(config.server_config.clone()),
        ),
    }
}

/// `Endpoint::handle`, without congestion marks. The engine looks the
/// datagram up in its tables, which name only connections it holds, and
/// either finds its connection, or opens a new one under a handle that was
/// free, or holds the same connections as before (a handshake that fails on
/// its first packet is entered and removed again within the call).
#[verifier::external_body]
fn engine_handle(
    engine: &mut Machine,
    now: Instant,
    peer: &SocketAddr,
    data: &[u8],
) -> (found: Option<Datagram>)
    ensures
        match found {
            None => engine_connections(*final(engine)) == engine_connections(*old(engine)),
            Some(Datagram::ConnectionEvent { handle, .. }) => {
                &&& engine_connections(*old(engine)).contains(handle)
                &&& engine_connections(*final(engine)) == engine_connections(*old(engine))
            },
            Some(Datagram::NewConnection { handle, .. }) => {
                &&& !engine_connections(*old(engine)).contains(handle)
                &&& engine_connections(*final(engine)) == engine_connections(*old(engine)).insert(
                    handle,
                )
            },
        },
{
    let remote = match peer.ip {
        IpAddr::V4(ip) => (ip.bits.to_be_bytes(), peer.port).into(),
        IpAddr::V6(ip) => (ip.bits.to_be_bytes(), peer.port).into(),
    };
    match engine.inner.handle(now, remote, None, data.into())? {
        (ch, DatagramEvent::ConnectionEvent(event)) => Some(
            Datagram::ConnectionEvent { handle: ch.0, event },
        ),
        (ch, DatagramEvent::NewConnection(connection)) => Some(
            Datagram::NewConnection { handle: ch.0, connection: Connection { inner: connection } },
        ),
    }
}

/// `Endpoint::handle_event`. It indexes its table by the handle and panics
/// on one it does not hold, hence the `requires`. The event that says the
/// connection is drained removes the connection and yields nothing; every
/// other event leaves the table as it is.
#[verifier::external_body]
fn engine_handle_event(
    engine: &mut Machine,
    handle: usize,
    event: quinn_proto::EndpointEvent,
) -> (reply: Option<quinn_proto::ConnectionEvent>)
    requires
        engine_connections(*old(engine)).contains(handle),
    ensures
        event_is_drained(event) ==> reply is None && engine_connections(*final(engine))
            == engine_connections(*old(engine)).remove(handle),
        !event_is_drained(event) ==> engine_connections(*final(engine)) == engine_connections(
            *old(engine),
        ),
{
    engine.inner.handle_event(quinn_proto::ConnectionHandle(handle), event)
}

/// `Endpoint::accept`: frees one handshake slot; no connection comes or goes.
#[verifier::external_body]
fn engine_accept(engine: &mut Machine)
    ensures
        engine_connections(*final(engine)) == engine_connections(*old(engine)),
{
    engine.inner.accept()
}

/// `Endpoint::reject_new_connections`: sets the flag that turns later
/// connection attempts away; no connection comes or goes.
#[verifier::external_body]
fn engine_reject_new_connections(engine: &mut Machine)
    ensures
        engine_connections(*final(engine)) == engine_connections(*old(engine)),
{
    engine.inner.reject_new_connections()
}

/// `Endpoint::connect`, with a copy of the client settings. On success the
/// new connection stands under a handle that was free; a refused attempt
/// fails before the table is touched.
#[verifier::external_body]
fn engine_connect(
    engine: &mut Machine,
    config: &Config,
    remote: &SocketAddr,
    server_name: &str,
) -> (made: Result<(usize, Connection), quinn_proto::ConnectError>)
    ensures
        match made {
            Ok((handle, _)) => {
                &&& !engine_connections(*old(engine)).contains(handle)
                &&& engine_connections(*final(engine)) == engine_connections(*old(engine)).insert(
                    handle,
                )
            },
            Err(_) => engine_connections(*final(engine)) == engine_connections(*old(engine)),
        },
{
    let remote = match remote.ip {
        IpAddr::V4(ip) => (ip.bits.to_be_bytes(), remote.port).into(),
        IpAddr::V6(ip) => (ip.bits.to_be_bytes(), remote.port).into(),
    };
    let made = engine.inner.connect(config.client_config.clone(), remote, server_name);
    made.map(|(ch, connection)| (ch.0, Connection { inner: connection }))
}

/// `Endpoint::poll_transmit`: takes the next packet off the engine's queue of
/// packets to send; no connection comes or goes.
#[verifier::external_body]
fn engine_poll_transmit(engine: &mut Machine) -> (packet: Option<
    quinn_proto::Transmit,
>)
    ensures
        engine_connections(*final(engine)) == engine_connections(*old(engine)),
{
    engine.inner.poll_transmit()
}

/// `EndpointEvent::is_drained`.
#[verifier::external_body]
pub(crate) fn is_drained(event: &quinn_proto::EndpointEvent) -> (drained: bool)
    ensures
        drained == event_is_drained(*event),
{
    event.is_drained()
}

/// `EndpointEvent::drained`: the event that tells the engine a connection is
/// gone.
#[verifier::external_body]
pub(crate) fn drained_event() -> (event: quinn_proto::EndpointEvent)
    ensures
        event_is_drained(event),
{
    quinn_proto::EndpointEvent::drained()
}

/// One request made of the engine, with what was handed over and what the
/// engine answered.
pub enum EngineCall {
    /// The bytes `data`, which arrived from `peer` at `now`, were handed
    /// over; the engine made `found` of them.
    Datagram { now: Instant, peer: SocketAddr, data: Seq<u8>, found: Option<Datagram> },
    /// `event` of the connection `handle` was handed over; the engine
    /// answered `reply`.
    Event {
        handle: usize,
        event: quinn_proto::EndpointEvent,
        reply: Option<quinn_proto::ConnectionEvent>,
    },
    /// An inbound connection was accepted.
    Accept,
    /// Further inbound connections were turned away.
    RejectNew,
    /// A connection to `remote`, a server of the name `server_name`, was
    /// asked for with the client settings of `config`; the engine answered
    /// `made`.
    Connect {
        config: Config,
        remote: SocketAddr,
        server_name: Seq<char>,
        made: Result<(usize, Connection), quinn_proto::ConnectError>,
    },
    /// The next packet to send was asked for; the engine answered `packet`.
    PollTransmit { packet: Option<quinn_proto::Transmit> },
}

/// The engine together with the journal of the requests made of it, oldest
/// first. The journal is ghost state: it costs nothing at run time, and lets
/// a contract say which requests a function makes, in which order, with
/// which arguments, and what it does with the answers.
pub struct Engine {
    inner: Machine,
    journal: Ghost<Seq<EngineCall>>,
}

impl Engine {
    /// The handles of the connections that the engine holds.
    pub closed spec fn connections(&self) -> Set<usize> {
        engine_connections(self.inner)
    }

    /// The requests made of the engine so far.
    pub closed spec fn journal(&self) -> Seq<EngineCall> {
        self.journal@
    }

    /// A fresh engine: no connection, nothing asked yet.
    pub fn new(config: &Config) -> (engine: Engine)
        ensures
            engine.connections() == Set::<usize>::empty(),
            engine.journal() == Seq::<EngineCall>::empty(),
    {
        Engine { inner: engine_new(config), journal: Ghost(Seq::empty()) }
    }

    /// Hands the engine a datagram that arrived from `peer` at `now`.
    pub fn handle(&mut self, now: Instant, peer: &SocketAddr, data: &[u8]) -> (found: Option<
        Datagram,
    >)
        ensures
            final(self).journal() == old(self).journal().push(
                EngineCall::Datagram { now, peer: *peer, data: data@, found },
            ),
            match found {
                None => final(self).connections() == old(self).connections(),
                Some(Datagram::ConnectionEvent { handle, .. }) => {
                    &&& old(self).connections().contains(handle)
                    &&& final(self).connections() == old(self).connections()
                },
                Some(Datagram::NewConnection { handle, .. }) => {
                    &&& !old(self).connections().contains(handle)
                    &&& final(self).connections() == old(self).connections().insert(handle)
                },
            },
    {
        let found = engine_handle(&mut self.inner, now, peer, data);
        self.journal = Ghost(
            self.journal@.push(EngineCall::Datagram { now, peer: *peer, data: data@, found }),
        );
        found
    }

    /// Hands the engine an event of the connection `handle`, which it must
    /// hold. A drained event makes the engine let the connection go, and has
    /// no reply.
    pub fn handle_event(&mut self, handle: usize, event: quinn_proto::EndpointEvent) -> (reply:
        Option<quinn_proto::ConnectionEvent>)
        requires
            old(self).connections().contains(handle),
        ensures
            final(self).journal() == old(self).journal().push(
                EngineCall::Event { handle, event, reply },
            ),
            event_is_drained(event) ==> reply is None && final(self).connections() == old(
                self,
            ).connections().remove(handle),
            !event_is_drained(event) ==> final(self).connections() == old(self).connections(),
    {
        let ghost handed = event;
        let reply = engine_handle_event(&mut self.inner, handle, event);
        self.journal = Ghost(self.journal@.push(EngineCall::Event { handle, event: handed, reply }));
        reply
    }

    /// Tells the engine that an inbound connection was taken up.
    pub fn accept(&mut self)
        ensures
            final(self).journal() == old(self).journal().push(EngineCall::Accept),
            final(self).connections() == old(self).connections(),
    {
        engine_accept(&mut self.inner);
        self.journal = Ghost(self.journal@.push(EngineCall::Accept));
    }

    /// Tells the engine to turn further inbound connections away.
    pub fn reject_new_connections(&mut self)
        ensures
            final(self).journal() == old(self).journal().push(EngineCall::RejectNew),
            final(self).connections() == old(self).connections(),
    {
        engine_reject_new_connections(&mut self.inner);
        self.journal = Ghost(self.journal@.push(EngineCall::RejectNew));
    }

    /// Asks the engine for a connection to `remote`, with the client
    /// settings of `config`.
    pub fn connect(
        &mut self,
        config: &Config,
        remote: &SocketAddr,
        server_name: &str,
    ) -> (made: Result<(usize, Connection), quinn_proto::ConnectError>)
        ensures
            final(self).journal() == old(self).journal().push(
                EngineCall::Connect {
                    config: *config,
                    remote: *remote,
                    server_name: server_name@,
                    made,
                },
            ),
            match made {
                Ok((handle, _)) => {
                    &&& !old(self).connections().contains(handle)
                    &&& final(self).connections() == old(self).connections().insert(handle)
                },
                Err(_) => final(self).connections() == old(self).connections(),
            },
    {
        let made = engine_connect(&mut self.inner, config, remote, server_name);
        self.journal = Ghost(
            self.journal@.push(
                EngineCall::Connect {
                    config: *config,
                    remote: *remote,
                    server_name: server_name@,
                    made,
                },
            ),
        );
        made
    }

    /// Asks the engine for its next packet to send.
    pub fn poll_transmit(&mut self) -> (packet: Option<quinn_proto::Transmit>)
        ensures
            final(self).journal() == old(self).journal().push(EngineCall::PollTransmit { packet }),
            final(self).connections() == old(self).connections(),
    {
        let packet = engine_poll_transmit(&mut self.inner);
        self.journal = Ghost(self.journal@.push(EngineCall::PollTransmit { packet }));
        packet
    }
}

} // verus!
