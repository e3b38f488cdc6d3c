//! The endpoint as its users see it: made for one address, listened on once,
//! dialled from, and fed the datagrams of its socket.

use crate::address::{
    clone_multiaddr, multiaddr_bytes, multiaddr_socketaddr, multiaddr_to_socketaddr,
    same_multiaddr, SocketAddr,
};
use crate::channel::{try_recv, Offer, Outbox, Polled};
use crate::endpoint::{EndpointInner, Routed};
use crate::engine::{Config, Connection, Datagram, EngineCall};
use crate::error::{Error, TransportError};
use futures::channel::mpsc::{UnboundedReceiver, UnboundedSender};
use libp2p_core::Multiaddr;
use std::time::Instant;
use vstd::prelude::*;

verus! {

/// What a listener is told.
pub enum ListenerEvent<U> {
    /// The endpoint serves this address.
    NewAddress(Multiaddr),
    /// A peer at `remote_addr` has opened a connection to `local_addr`;
    /// `upgrade` leads to it once it is established.
    Upgrade { upgrade: U, local_addr: Multiaddr, remote_addr: SocketAddr },
}

/// The receiving end of an endpoint's announcements.
#[verifier::reject_recursive_types(U)]
pub struct Listener<U> {
    channel: UnboundedReceiver<ListenerEvent<U>>,
}

impl<U> Listener<U> {
    /// The queue that this listener reads.
    pub closed spec fn channel(&self) -> UnboundedReceiver<ListenerEvent<U>> {
        self.channel
    }

    /// The next announcement, if one is waiting.
    pub fn try_next(&mut self) -> (polled: Polled<ListenerEvent<U>>) {
        try_recv(&mut self.channel)
    }

    /// Gives up the listener for the queue itself, to wait on it.
    pub fn into_channel(self) -> (channel: UnboundedReceiver<ListenerEvent<U>>)
        ensures
            channel == self.channel(),
    {
        self.channel
    }
}

/// What a datagram led to.
pub enum Received<S> {
    /// The engine has taken it; nothing is owed to any connection.
    Settled,
    /// `event` is to be handed to `muxer`, the multiplexer of `handle`.
    Deliver { handle: usize, muxer: S, event: quinn_proto::ConnectionEvent },
    /// The multiplexer of `handle` is gone, and the connection was reaped.
    Orphaned { handle: usize },
    /// It opened the connection `handle`, which was announced to the
    /// listener.
    Accepted { handle: usize },
    /// It opened the connection `handle`, which nobody listens for: the
    /// connection was turned away.
    Refused { handle: usize },
}

/// How `listen_on` answers a request.
pub enum Verdict {
    /// The address is not the endpoint's own.
    NotSupported,
    /// The address is right, but a listener was granted before.
    AlreadyListening,
    /// The listener is granted.
    Granted,
}

/// The parts of an endpoint that are fixed when it is made, and the two
/// ends of its announcement queue. The receiving end is here until a
/// listener takes it.
#[verifier::reject_recursive_types(U)]
pub struct Endpoint<U> {
    new_connections: Outbox<ListenerEvent<U>>,
    receive_connections: Option<UnboundedReceiver<ListenerEvent<U>>>,
    address: Multiaddr,
    socket_addr: SocketAddr,
    config: Config,
    driver: bool,
}

impl<U> Endpoint<U> {
    /// The address that the endpoint was made for.
    pub closed spec fn address(&self) -> Multiaddr {
        self.address
    }

    /// The socket address that `address` denotes.
    pub closed spec fn bound_to(&self) -> SocketAddr {
        self.socket_addr
    }

    /// The settings that the endpoint was made with.
    pub closed spec fn config(&self) -> Config {
        self.config
    }

    /// The sending end of the announcement queue.
    pub closed spec fn sender(&self) -> UnboundedSender<ListenerEvent<U>> {
        self.new_connections.sender()
    }

    /// What has been offered to the announcement queue so far, oldest
    /// first, each with the queue's answer.
    pub closed spec fn offers(&self) -> Seq<Offer<ListenerEvent<U>>> {
        self.new_connections.offers()
    }

    /// The receiving end of the announcement queue, until a listener has
    /// taken it.
    pub closed spec fn receiver(&self) -> Option<UnboundedReceiver<ListenerEvent<U>>> {
        self.receive_connections
    }

    /// Whether a listener has been granted.
    pub open spec fn listening(&self) -> bool {
        self.receiver() is None
    }

    /// Whether the task that drives the endpoint has been claimed.
    pub closed spec fn driven(&self) -> bool {
        self.driver
    }

    /// What is fixed when the endpoint is made is the same in both: the
    /// address, the socket address, the settings, and the sending end of
    /// the announcement queue.
    pub open spec fn same_make(before: Self, after: Self) -> bool {
        &&& after.address() == before.address()
        &&& after.bound_to() == before.bound_to()
        &&& after.config() == before.config()
        &&& after.sender() == before.sender()
    }

    /// Nothing but the record of offers differs between the two.
    pub open spec fn same_but_offers(before: Self, after: Self) -> bool {
        &&& Self::same_make(before, after)
        &&& after.receiver() == before.receiver()
        &&& after.driven() == before.driven()
    }

    /// One more offer has been made to the queue, with the answer `taken`:
    /// the announcement of a connection from `peer` to the endpoint's own
    /// address, to be reached through `upgrade`.
    pub open spec fn offered_upgrade(
        before: Self,
        after: Self,
        upgrade: U,
        peer: SocketAddr,
        taken: bool,
    ) -> bool {
        &&& after.offers().len() == before.offers().len() + 1
        &&& after.offers().drop_last() == before.offers()
        &&& after.offers().last().taken == taken
        &&& after.offers().last().item matches ListenerEvent::Upgrade {
            upgrade: told,
            local_addr,
            remote_addr,
        }
        &&& told == upgrade
        &&& remote_addr == peer
        &&& multiaddr_bytes(local_addr) == multiaddr_bytes(before.address())
    }

    /// `spawn` made `weak` and `upgrade` of the connection.
    pub open spec fn spawned<W, G: FnOnce(usize, Connection) -> (W, U)>(
        spawn: G,
        handle: usize,
        connection: Connection,
        weak: W,
        upgrade: U,
    ) -> bool {
        spawn.ensures((handle, connection), (weak, upgrade))
    }

    /// The inbound connection `handle` has been dealt with: `spawn` made
    /// its multiplexer, the upgrade that `spawn` made with it was offered
    /// to the queue once, together with `peer`, and `announced` is what the
    /// queue answered. If the queue took the offer, the multiplexer is in
    /// the registry and the engine heard nothing; if not, the connection
    /// was turned away and the registry has no entry for it.
    pub open spec fn taken_up<W, G: FnOnce(usize, Connection) -> (W, U)>(
        before: Self,
        after: Self,
        inner_before: EndpointInner<W>,
        inner_after: EndpointInner<W>,
        spawn: G,
        handle: usize,
        connection: Connection,
        peer: SocketAddr,
        announced: bool,
    ) -> bool {
        exists|weak: W, upgrade: U|
            {
                &&& #[trigger] Self::spawned(spawn, handle, connection, weak, upgrade)
                &&& Self::offered_upgrade(before, after, upgrade, peer, announced)
                &&& inner_after.connections() == inner_before.connections()
                &&& inner_after.pending() == inner_before.pending()
                &&& if announced {
                    &&& inner_after.journal() == inner_before.journal()
                    &&& inner_after.registry() == inner_before.registry().insert(handle, weak)
                } else {
                    &&& inner_after.journal() == inner_before.journal().push(
                        EngineCall::Accept,
                    ).push(EngineCall::RejectNew)
                    &&& inner_after.registry() == inner_before.registry().remove(handle)
                }
            }
    }

    /// Offers an announcement to the queue.
    fn announce(&mut self, event: ListenerEvent<U>) -> (queued: bool)
        ensures
            Self::same_but_offers(*old(self), *final(self)),
            final(self).offers() == old(self).offers().push(Offer { item: event, taken: queued }),
    {
        self.new_connections.offer(event)
    }

    /// The endpoint's address denotes the socket address it is bound to.
    pub open spec fn wf(&self) -> bool {
        multiaddr_socketaddr(self.address()) == Ok::<SocketAddr, ()>(self.bound_to())
    }

    /// How a request to listen on `addr` is answered.
    pub open spec fn verdict(&self, addr: Multiaddr) -> Verdict {
        if multiaddr_bytes(addr) != multiaddr_bytes(self.address()) {
            Verdict::NotSupported
        } else if self.listening() {
            Verdict::AlreadyListening
        } else {
            Verdict::Granted
        }
    }

    /// An endpoint has one listener at most. Once a listener is granted, no
    /// request is granted again, whatever its address; and a request that is
    /// not granted is either for a foreign address or finds the listener
    /// already granted.
    pub proof fn lemma_second_listener_is_refused(
        before: Self,
        after: Self,
        first: Multiaddr,
        second: Multiaddr,
    )
        requires
            before.verdict(first) is Granted,
            after.address() == before.address(),
            after.listening(),
        ensures
            !(after.verdict(second) is Granted),
            after.verdict(second) is AlreadyListening <==> multiaddr_bytes(second)
                == multiaddr_bytes(first),
    {
    }

    /// Makes an endpoint for `address`, and the shared state that goes with
    /// it. An address that does not denote a UDP socket address with the
    /// QUIC marker is handed back. The first and only offer made to the
    /// announcement queue is the address itself.
    pub fn new<W>(config: Config, address: Multiaddr) -> (made: Result<
        (Endpoint<U>, EndpointInner<W>),
        TransportError,
    >)
        ensures
            match made {
                Ok((endpoint, inner)) => {
                    &&& multiaddr_socketaddr(address) is Ok
                    &&& endpoint.wf()
                    &&& endpoint.address() == address
                    &&& endpoint.config() == config
                    &&& !endpoint.listening()
                    &&& !endpoint.driven()
                    &&& endpoint.offers().len() == 1
                    &&& endpoint.offers()[0].item matches ListenerEvent::NewAddress(told)
                    &&& multiaddr_bytes(told) == multiaddr_bytes(address)
                    &&& inner.wf()
                    &&& inner.registry() == Map::<usize, W>::empty()
                    &&& inner.connections() == Set::<usize>::empty()
                    &&& inner.journal() == Seq::<EngineCall>::empty()
                    &&& inner.pending() is None
                },
                Err(refusal) => {
                    &&& multiaddr_socketaddr(address) is Err
                    &&& refusal == TransportError::MultiaddrNotSupported(address)
                },
            },
    {
        let socket_addr = match multiaddr_to_socketaddr(&address) {
            Ok(socket_addr) => socket_addr,
            Err(_) => {
                return Err(TransportError::MultiaddrNotSupported(address));
            },
        };
        let (new_connections, receive_connections) = Outbox::new();
        let inner = EndpointInner::new(&config);
        let first = ListenerEvent::NewAddress(clone_multiaddr(&address));
        let mut endpoint = Endpoint {
            new_connections,
            receive_connections: Some(receive_connections),
            address,
            socket_addr,
            config,
            driver: false,
        };
        let _queued = endpoint.announce(first);
        Ok((endpoint, inner))
    }

    /// A copy of the address that the endpoint was made for.
    pub fn addr(&self) -> (addr: Multiaddr)
        ensures
            multiaddr_bytes(addr) == multiaddr_bytes(self.address()),
    {
        clone_multiaddr(&self.address)
    }

    /// The socket address to bind the endpoint's socket to.
    pub fn socket_addr(&self) -> (addr: SocketAddr)
        ensures
            addr == self.bound_to(),
    {
        self.socket_addr
    }

    /// Claims the task that drives the endpoint. The first caller is told
    /// `true` and has to start the task; every later one is told `false`.
    pub fn claim_driver(&mut self) -> (first: bool)
        ensures
            first == !old(self).driven(),
            final(self).driven(),
            Self::same_make(*old(self), *final(self)),
            final(self).receiver() == old(self).receiver(),
            final(self).offers() == old(self).offers(),
    {
        let first = !self.driver;
        self.driver = true;
        first
    }

    /// Grants the endpoint's one listener. Only the address that the
    /// endpoint was made for can be listened on; any other is handed back.
    /// A second request fails, and nothing changes for the first listener.
    pub fn listen_on(&mut self, addr: Multiaddr) -> (granted: Result<Listener<U>, TransportError>)
        ensures
            match old(self).verdict(addr) {
                Verdict::NotSupported => {
                    &&& granted == Err::<Listener<U>, _>(
                        TransportError::MultiaddrNotSupported(addr),
                    )
                    &&& *final(self) == *old(self)
                },
                Verdict::AlreadyListening => {
                    &&& granted == Err::<Listener<U>, _>(
                        TransportError::Other(Error::AlreadyListening),
                    )
                    &&& *final(self) == *old(self)
                },
                Verdict::Granted => {
                    &&& granted matches Ok(listener)
                    &&& Some(listener.channel()) == old(self).receiver()
                    &&& final(self).listening()
                    &&& Self::same_make(*old(self), *final(self))
                    &&& final(self).driven() == old(self).driven()
                    &&& final(self).offers() == old(self).offers()
                },
            },
    {
        if !same_multiaddr(&addr, &self.address) {
            return Err(TransportError::MultiaddrNotSupported(addr));
        }
        match self.receive_connections.take() {
            Some(channel) => Ok(Listener { channel }),
            None => Err(TransportError::Other(Error::AlreadyListening)),
        }
    }

    /// Whether `addr` can be dialled: it denotes a socket address with a
    /// concrete host and port.
    pub open spec fn dialable(addr: Multiaddr) -> bool {
        multiaddr_socketaddr(addr) matches Ok(remote) && remote.spec_is_dialable()
    }

    /// The engine has been asked once for a connection to the socket
    /// address that `addr` denotes, with the endpoint's own settings. If it
    /// refused, `outcome` carries its cause and nothing else has changed; if
    /// it agreed, the multiplexer that `spawn` made of the new connection is
    /// in the registry, and `outcome` is what `spawn` made for the caller.
    pub open spec fn dialled<W, G: FnOnce(usize, Connection) -> (W, U)>(
        &self,
        before: EndpointInner<W>,
        after: EndpointInner<W>,
        addr: Multiaddr,
        spawn: G,
        outcome: Result<U, TransportError>,
    ) -> bool {
        &&& after.journal().len() == before.journal().len() + 1
        &&& after.journal().drop_last() == before.journal()
        &&& after.pending() == before.pending()
        &&& after.journal().last() matches EngineCall::Connect {
            config,
            remote,
            server_name,
            made,
        }
        &&& config == self.config()
        &&& Ok::<SocketAddr, ()>(remote) == multiaddr_socketaddr(addr)
        &&& server_name == "localhost"@
        &&& match made {
            Err(cause) => {
                &&& outcome == Err::<U, _>(TransportError::Other(Error::CannotConnect(cause)))
                &&& after.registry() == before.registry()
                &&& after.connections() == before.connections()
            },
            Ok((handle, connection)) => {
                &&& outcome matches Ok(upgrade)
                &&& !before.connections().contains(handle)
                &&& after.connections() == before.connections().insert(handle)
                &&& EndpointInner::entered(before, after, spawn, handle, connection, upgrade)
            },
        }
    }

    /// Opens a connection to `addr`. An address that cannot be dialled is
    /// handed back before the engine hears of it. Otherwise the engine is
    /// asked once; if it agrees, `spawn` makes the connection's multiplexer,
    /// which enters the registry, and the caller gets what `spawn` made for
    /// it; if it refuses, the caller gets the engine's cause.
    pub fn dial<W, G: FnOnce(usize, Connection) -> (W, U)>(
        &self,
        inner: &mut EndpointInner<W>,
        addr: Multiaddr,
        spawn: G,
    ) -> (outcome: Result<U, TransportError>)
        requires
            old(inner).wf(),
            forall|handle: usize, connection: Connection| spawn.requires((handle, connection)),
        ensures
            final(inner).wf(),
            !Self::dialable(addr) ==> {
                &&& outcome == Err::<U, _>(TransportError::MultiaddrNotSupported(addr))
                &&& *final(inner) == *old(inner)
            },
            Self::dialable(addr) ==> self.dialled(*old(inner), *final(inner), addr, spawn, outcome),
    {
        let remote = match multiaddr_to_socketaddr(&addr) {
            Ok(remote) => remote,
            Err(_) => {
                return Err(TransportError::MultiaddrNotSupported(addr));
            },
        };
        if !remote.is_dialable() {
            return Err(TransportError::MultiaddrNotSupported(addr));
        }
        let made = inner.connect(&self.config, &remote);
        assert(inner.journal().drop_last() == old(inner).journal());
        match made {
            Err(cause) => Err(TransportError::Other(Error::CannotConnect(cause))),
            Ok((handle, connection)) => {
                let upgrade = inner.create_muxer(connection, handle, spawn);
                assert(EndpointInner::entered(
                    *old(inner),
                    *inner,
                    spawn,
                    handle,
                    connection,
                    upgrade,
                ));
                Ok(upgrade)
            },
        }
    }

    /// Takes up the inbound connection `handle`, opened by a datagram from
    /// `peer`: `spawn` makes its multiplexer, which enters the registry, and
    /// the connection is offered to the announcement queue. The result is
    /// the queue's answer. If no listener is there to hear of the
    /// connection, it is turned away: the engine is told to accept it and
    /// then to reject all further ones, and the registry keeps no entry for
    /// it.
    pub fn accept_muxer<W, G: FnOnce(usize, Connection) -> (W, U)>(
        &mut self,
        connection: Connection,
        handle: usize,
        peer: SocketAddr,
        inner: &mut EndpointInner<W>,
        spawn: G,
    ) -> (announced: bool)
        requires
            old(inner).wf(),
            old(inner).connections().contains(handle),
            spawn.requires((handle, connection)),
        ensures
            final(inner).wf(),
            Self::same_but_offers(*old(self), *final(self)),
            Self::taken_up(
                *old(self),
                *final(self),
                *old(inner),
                *final(inner),
                spawn,
                handle,
                connection,
                peer,
                announced,
            ),
    {
        let upgrade = inner.create_muxer(connection, handle, spawn);
        let ghost made = upgrade;
        let ghost weak = inner.registry()[handle];
        let local_addr = clone_multiaddr(&self.address);
        let announced = self.announce(
            ListenerEvent::Upgrade { upgrade, local_addr, remote_addr: peer },
        );
        inner.settle(handle, announced);
        proof {
            assert(self.offers().drop_last() == old(self).offers());
            assert(Self::spawned(spawn, handle, connection, weak, made));
            assert(Self::offered_upgrade(*old(self), *self, made, peer, announced));
            if !announced {
                assert(inner.registry() == old(inner).registry().remove(handle));
            }
        }
        announced
    }

    /// What the engine found in a datagram from `peer` has been dealt with.
    /// Nothing is settled at once. An event is owed, as it came, to the
    /// multiplexer that `upgrade` finds for its connection; where `upgrade`
    /// finds none, the connection is reaped. A new connection is taken up
    /// or turned away, as the announcement queue answers.
    pub open spec fn concluded<
        W,
        S,
        F: Fn(&W) -> Option<S>,
        G: FnOnce(usize, Connection) -> (W, U),
    >(
        before: Self,
        after: Self,
        inner_before: EndpointInner<W>,
        inner_after: EndpointInner<W>,
        found: Option<Datagram>,
        peer: SocketAddr,
        upgrade: F,
        spawn: G,
        received: Received<S>,
    ) -> bool {
        match found {
            None => {
                &&& received is Settled
                &&& inner_after == inner_before
                &&& after.offers() == before.offers()
            },
            Some(Datagram::ConnectionEvent { handle, event }) => {
                &&& after.offers() == before.offers()
                &&& match received {
                    Received::Deliver { handle: to, muxer, event: owed } => {
                        &&& to == handle
                        &&& owed == event
                        &&& inner_before.registry().contains_key(handle)
                        &&& upgrade.ensures((&inner_before.registry()[handle],), Some(muxer))
                        &&& inner_after == inner_before
                    },
                    Received::Orphaned { handle: gone } => {
                        &&& gone == handle
                        &&& inner_before.resolves(handle, upgrade, None::<S>)
                        &&& EndpointInner::reaped(inner_before, inner_after, handle)
                    },
                    _ => false,
                }
            },
            Some(Datagram::NewConnection { handle, connection }) => {
                &&& received matches Received::Accepted { handle: taken } ==> taken == handle
                &&& received matches Received::Refused { handle: turned } ==> turned == handle
                &&& received is Accepted || received is Refused
                &&& Self::taken_up(
                    before,
                    after,
                    inner_before,
                    inner_after,
                    spawn,
                    handle,
                    connection,
                    peer,
                    received is Accepted,
                )
            },
        }
    }

    /// The engine has been handed the bytes `data`, which arrived from
    /// `peer` at `now`, and what it found has been dealt with.
    pub open spec fn driven_receive<
        W,
        S,
        F: Fn(&W) -> Option<S>,
        G: FnOnce(usize, Connection) -> (W, U),
    >(
        before: Self,
        after: Self,
        inner_before: EndpointInner<W>,
        inner_after: EndpointInner<W>,
        now: Instant,
        peer: SocketAddr,
        data: Seq<u8>,
        upgrade: F,
        spawn: G,
        received: Received<S>,
    ) -> bool {
        exists|found: Option<Datagram>, between: EndpointInner<W>|
            {
                &&& #[trigger] EndpointInner::handed(inner_before, between, now, peer, data, found)
                &&& Self::concluded(
                    before,
                    after,
                    between,
                    inner_after,
                    found,
                    peer,
                    upgrade,
                    spawn,
                    received,
                )
            }
    }

    /// A datagram that has been dealt with stands in the journal, right
    /// after what was there before, as it arrived: with its time, its peer
    /// and its bytes. Only a connection that the datagram itself opened is
    /// ever offered to the announcement queue, and at most once.
    pub proof fn lemma_driven_receive_is_journalled<
        W,
        S,
        F: Fn(&W) -> Option<S>,
        G: FnOnce(usize, Connection) -> (W, U),
    >(
        before: Self,
        after: Self,
        inner_before: EndpointInner<W>,
        inner_after: EndpointInner<W>,
        now: Instant,
        peer: SocketAddr,
        data: Seq<u8>,
        upgrade: F,
        spawn: G,
        received: Received<S>,
    )
        requires
            Self::driven_receive(
                before,
                after,
                inner_before,
                inner_after,
                now,
                peer,
                data,
                upgrade,
                spawn,
                received,
            ),
        ensures
            inner_before.journal().len() < inner_after.journal().len()
                <= inner_before.journal().len() + 3,
            inner_after.journal().subrange(0, inner_before.journal().len() as int)
                == inner_before.journal(),
            inner_after.journal()[inner_before.journal().len() as int] matches EngineCall::Datagram {
                now: at,
                peer: from,
                data: bytes,
                found,
            } && at == now && from == peer && bytes == data && (found is None <==> received
                is Settled),
            inner_after.pending() == inner_before.pending(),
            received is Accepted || received is Refused <==> after.offers().len()
                == before.offers().len() + 1,
            !(received is Accepted || received is Refused) ==> after.offers() == before.offers(),
            received is Accepted ==> after.offers().last().taken,
            received is Refused ==> !after.offers().last().taken,
    {
        let (found, between) = choose|found: Option<Datagram>, between: EndpointInner<W>|
            {
                &&& #[trigger] EndpointInner::handed(inner_before, between, now, peer, data, found)
                &&& Self::concluded(
                    before,
                    after,
                    between,
                    inner_after,
                    found,
                    peer,
                    upgrade,
                    spawn,
                    received,
                )
            };
        let first = inner_before.journal().len() as int;
        assert(between.journal()[first] == (EngineCall::Datagram { now, peer, data, found }));
        assert(between.journal().subrange(0, first) == inner_before.journal());
        if received is Orphaned {
            assert(inner_after.journal().drop_last() == between.journal());
            assert(inner_after.journal()[first] == between.journal()[first]);
            assert(inner_after.journal().subrange(0, first) == between.journal().subrange(
                0,
                first,
            ));
        }
        if received is Refused {
            assert(inner_after.journal()[first] == between.journal()[first]);
            assert(inner_after.journal().subrange(0, first) == between.journal().subrange(
                0,
                first,
            ));
        }
    }

    /// Takes one datagram off the socket: hands it to the engine, routes
    /// what the engine made of it, and takes up or turns away the connection
    /// that it opened, if it opened one.
    pub fn drive_receive<W, S, F: Fn(&W) -> Option<S>, G: FnOnce(usize, Connection) -> (W, U)>(
        &mut self,
        inner: &mut EndpointInner<W>,
        now: Instant,
        peer: SocketAddr,
        data: &[u8],
        upgrade: &F,
        spawn: G,
    ) -> (received: Received<S>)
        requires
            old(inner).wf(),
            forall|w: &W| upgrade.requires((w,)),
            forall|handle: usize, connection: Connection| spawn.requires((handle, connection)),
        ensures
            final(inner).wf(),
            Self::same_but_offers(*old(self), *final(self)),
            Self::driven_receive(
                *old(self),
                *final(self),
                *old(inner),
                *final(inner),
                now,
                peer,
                data@,
                *upgrade,
                spawn,
                received,
            ),
    {
        let routed = inner.receive(now, &peer, data, upgrade);
        let ghost (found, between) = choose|found: Option<Datagram>, between: EndpointInner<W>|
            {
                &&& #[trigger] EndpointInner::handed(*old(inner), between, now, peer, data@, found)
                &&& EndpointInner::dispatched(between, *inner, found, *upgrade, routed)
            };
        match routed {
            Routed::Settled => Received::Settled,
            Routed::Deliver { handle, muxer, event: Some(event) } => Received::Deliver {
                handle,
                muxer,
                event,
            },
            Routed::Deliver { handle, muxer, event: None } => Received::Settled,
            Routed::Orphaned { handle } => Received::Orphaned { handle },
            Routed::Unknown { handle } => Received::Settled,
            Routed::NewConnection { handle, connection } => {
                if self.accept_muxer(connection, handle, peer, inner, spawn) {
                    Received::Accepted { handle }
                } else {
                    Received::Refused { handle }
                }
            },
        }
    }
}

} // verus!
