//! The shared state of an endpoint: the engine, the registry of connection
//! multiplexers, and the packet that the socket could not take yet.
//!
//! The registry holds, for each connection handle, a reference `W` that does
//! not keep the multiplexer alive. Whether such a reference still leads to
//! its multiplexer is decided by the caller's `upgrade` function, which
//! yields a strong reference `S` or nothing.

use crate::address::SocketAddr;
use crate::engine::{
    drained_event, event_is_drained, is_drained, Config, Connection, Datagram, Engine, EngineCall,
};
use std::collections::HashMap;
use std::time::Instant;
use vstd::prelude::*;

verus! {

broadcast use vstd::std_specs::hash::group_hash_axioms;

/// What a connection tells the endpoint.
pub enum EndpointMessage {
    /// The connection was taken up by the application.
    ConnectionAccepted,
    /// The connection `handle` has an event for the engine.
    EndpointEvent { handle: usize, event: quinn_proto::EndpointEvent },
}

/// What became of a message or a datagram, and what is left for the caller
/// to do.
pub enum Routed<S> {
    /// The engine has taken it; nothing is owed to any connection.
    Settled,
    /// `event` is to be handed to `muxer`, the multiplexer of `handle`.
    Deliver { handle: usize, muxer: S, event: Option<quinn_proto::ConnectionEvent> },
    /// The multiplexer of `handle` is gone. The engine has been told that
    /// the connection is drained, and the registry no longer names it.
    Orphaned { handle: usize },
    /// The message names a connection that the registry does not know. It
    /// was dropped.
    Unknown { handle: usize },
    /// The engine has opened the connection `handle`, which has no
    /// multiplexer yet.
    NewConnection { handle: usize, connection: Connection },
}

/// One datagram as it arrives: at a time, from a peer, with its bytes.
pub struct Arrival {
    pub now: Instant,
    pub peer: SocketAddr,
    pub data: Seq<u8>,
}

/// The state that the driver of an endpoint and the callers of `dial`
/// share: the engine, the registry, and at most one packet held back for the
/// socket.
pub struct EndpointInner<W> {
    engine: Engine,
    muxers: HashMap<usize, W>,
    pending: Option<quinn_proto::Transmit>,
}

impl<W> EndpointInner<W> {
    /// The registry: which reference stands for which connection handle.
    pub closed spec fn registry(&self) -> Map<usize, W> {
        self.muxers@
    }

    /// The handles of the connections that the engine holds.
    pub closed spec fn connections(&self) -> Set<usize> {
        self.engine.connections()
    }

    /// The requests made of the engine so far, oldest first.
    pub closed spec fn journal(&self) -> Seq<EngineCall> {
        self.engine.journal()
    }

    /// The packet held back for the socket, if any.
    pub closed spec fn pending(&self) -> Option<quinn_proto::Transmit> {
        self.pending
    }

    /// Every connection that the registry names is one that the engine
    /// holds.
    pub open spec fn wf(&self) -> bool {
        forall|handle: usize| #[trigger]
            self.registry().contains_key(handle) ==> self.connections().contains(handle)
    }

    /// What `upgrade` may make of the registry's entry for `handle`: where
    /// there is no entry, nothing.
    pub open spec fn resolves<S, F: Fn(&W) -> Option<S>>(
        &self,
        handle: usize,
        upgrade: F,
        target: Option<S>,
    ) -> bool {
        if self.registry().contains_key(handle) {
            upgrade.ensures((&self.registry()[handle],), target)
        } else {
            target is None
        }
    }

    /// A step keeps the registry within the engine's connections if every
    /// entry it leaves in the registry either was there before, for a
    /// connection the engine still holds, or is for a connection the engine
    /// holds now.
    proof fn lemma_wf_kept(before: Self, after: Self)
        requires
            before.wf(),
            forall|h: usize| #[trigger]
                after.registry().contains_key(h) ==> after.connections().contains(h) || (
                before.registry().contains_key(h) && (before.connections().contains(h)
                    ==> after.connections().contains(h))),
        ensures
            after.wf(),
    {
        assert forall|h: usize| #[trigger]
            after.registry().contains_key(h) implies after.connections().contains(h) by {
            if !after.connections().contains(h) {
                assert(before.registry().contains_key(h));
            }
        }
    }

    /// The registry never outlives the engine's view: a connection that the
    /// registry names is one that the engine holds, that is, one that it
    /// has not been told is drained.
    pub proof fn lemma_registered_connection_is_held(self, handle: usize)
        requires
            self.wf(),
            self.registry().contains_key(handle),
        ensures
            self.connections().contains(handle),
    {
    }

    /// Reaping a connection asks the engine exactly one thing, that the
    /// connection be taken as drained, and leaves the connection neither in
    /// the registry nor in the engine.
    pub proof fn lemma_reaped_once(before: Self, after: Self, handle: usize)
        requires
            Self::reaped(before, after, handle),
        ensures
            after.journal().len() == before.journal().len() + 1,
            after.journal().drop_last() == before.journal(),
            after.journal().last() matches EngineCall::Event { handle: told, event, .. } && told
                == handle && event_is_drained(event),
            !after.registry().contains_key(handle),
            !after.connections().contains(handle),
    {
    }

    /// The state of a new endpoint: an engine without connections, an empty
    /// registry, no packet held back.
    pub fn new(config: &Config) -> (inner: Self)
        ensures
            inner.wf(),
            inner.registry() == Map::<usize, W>::empty(),
            inner.connections() == Set::<usize>::empty(),
            inner.journal() == Seq::<EngineCall>::empty(),
            inner.pending() is None,
    {
        EndpointInner { engine: Engine::new(config), muxers: HashMap::new(), pending: None }
    }

    /// Whether the registry names `handle`.
    pub fn is_registered(&self, handle: usize) -> (known: bool)
        ensures
            known == self.registry().contains_key(handle),
    {
        self.muxers.contains_key(&handle)
    }

    /// The engine has been handed `event` of the connection `handle` and has
    /// answered `reply`; the registry has followed the engine.
    pub open spec fn forwarded(
        before: Self,
        after: Self,
        handle: usize,
        event: quinn_proto::EndpointEvent,
        reply: Option<quinn_proto::ConnectionEvent>,
    ) -> bool {
        &&& after.journal() == before.journal().push(EngineCall::Event { handle, event, reply })
        &&& after.pending() == before.pending()
        &&& if event_is_drained(event) {
            &&& reply is None
            &&& after.registry() == before.registry().remove(handle)
            &&& after.connections() == before.connections().remove(handle)
        } else {
            &&& after.registry() == before.registry()
            &&& after.connections() == before.connections()
        }
    }

    /// The registry has lost its entry for `handle`, and the engine, told
    /// once that the connection is drained, has let the connection go.
    pub open spec fn reaped(before: Self, after: Self, handle: usize) -> bool {
        &&& after.journal().len() == before.journal().len() + 1
        &&& after.journal().drop_last() == before.journal()
        &&& after.journal().last() matches EngineCall::Event { handle: told, event, reply }
        &&& told == handle
        &&& event_is_drained(event)
        &&& reply is None
        &&& after.registry() == before.registry().remove(handle)
        &&& after.connections() == before.connections().remove(handle)
        &&& after.pending() == before.pending()
    }

    /// The registry has gained, under `handle`, the reference that `spawn`
    /// made of `connection`; `upgrade` is what `spawn` made for the caller.
    pub open spec fn entered<U, G: FnOnce(usize, Connection) -> (W, U)>(
        before: Self,
        after: Self,
        spawn: G,
        handle: usize,
        connection: Connection,
        upgrade: U,
    ) -> bool {
        &&& after.registry().contains_key(handle)
        &&& spawn.ensures((handle, connection), (after.registry()[handle], upgrade))
        &&& after.registry() == before.registry().insert(handle, after.registry()[handle])
    }

    /// The engine has been handed the bytes `data`, which arrived from
    /// `peer` at `now`, and has made `found` of them.
    pub open spec fn handed(
        before: Self,
        after: Self,
        now: Instant,
        peer: SocketAddr,
        data: Seq<u8>,
        found: Option<Datagram>,
    ) -> bool {
        &&& after.journal() == before.journal().push(
            EngineCall::Datagram { now, peer, data, found },
        )
        &&& after.registry() == before.registry()
        &&& after.pending() == before.pending()
        &&& match found {
            None => after.connections() == before.connections(),
            Some(Datagram::ConnectionEvent { handle, .. }) => {
                &&& before.connections().contains(handle)
                &&& after.connections() == before.connections()
            },
            Some(Datagram::NewConnection { handle, .. }) => {
                &&& !before.connections().contains(handle)
                &&& after.connections() == before.connections().insert(handle)
            },
        }
    }

    /// What the engine found has been routed: nothing is settled at once; a
    /// new connection is handed on as it came; an event is owed, as it came,
    /// to the multiplexer that `upgrade` finds for its connection, and where
    /// `upgrade` finds none the connection is reaped instead.
    pub open spec fn dispatched<S, F: Fn(&W) -> Option<S>>(
        before: Self,
        after: Self,
        found: Option<Datagram>,
        upgrade: F,
        routed: Routed<S>,
    ) -> bool {
        match found {
            None => routed is Settled && after == before,
            Some(Datagram::NewConnection { handle, connection }) => {
                &&& routed == Routed::<S>::NewConnection { handle, connection }
                &&& after == before
            },
            Some(Datagram::ConnectionEvent { handle, event }) => match routed {
                Routed::Deliver { handle: to, muxer, event: owed } => {
                    &&& to == handle
                    &&& owed == Some(event)
                    &&& before.registry().contains_key(handle)
                    &&& upgrade.ensures((&before.registry()[handle],), Some(muxer))
                    &&& after == before
                },
                Routed::Orphaned { handle: gone } => {
                    &&& gone == handle
                    &&& before.resolves(handle, upgrade, None::<S>)
                    &&& Self::reaped(before, after, handle)
                },
                _ => false,
            },
        }
    }

    /// A datagram has been handed to the engine, and what the engine found
    /// has been routed.
    pub open spec fn received<S, F: Fn(&W) -> Option<S>>(
        before: Self,
        after: Self,
        now: Instant,
        peer: SocketAddr,
        data: Seq<u8>,
        upgrade: F,
        routed: Routed<S>,
    ) -> bool {
        exists|found: Option<Datagram>, between: Self|
            {
                &&& #[trigger] Self::handed(before, between, now, peer, data, found)
                &&& Self::dispatched(between, after, found, upgrade, routed)
            }
    }

    /// A datagram that has been received stands in the journal, right after
    /// what was there before, as it arrived: with its time, its peer and its
    /// bytes. After it the journal holds at most the one event that reaps
    /// an orphaned connection.
    pub proof fn lemma_received_is_journalled<S, F: Fn(&W) -> Option<S>>(
        before: Self,
        after: Self,
        now: Instant,
        peer: SocketAddr,
        data: Seq<u8>,
        upgrade: F,
        routed: Routed<S>,
    )
        requires
            Self::received(before, after, now, peer, data, upgrade, routed),
        ensures
            before.journal().len() < after.journal().len() <= before.journal().len() + 2,
            after.journal().subrange(0, before.journal().len() as int) == before.journal(),
            after.journal()[before.journal().len() as int] matches EngineCall::Datagram {
                now: at,
                peer: from,
                data: bytes,
                ..
            } && at == now && from == peer && bytes == data,
            after.journal().len() == before.journal().len() + 2 <==> routed is Orphaned,
            after.pending() == before.pending(),
    {
        let (found, between) = choose|found: Option<Datagram>, between: Self|
            {
                &&& #[trigger] Self::handed(before, between, now, peer, data, found)
                &&& Self::dispatched(between, after, found, upgrade, routed)
            };
        let first = before.journal().len() as int;
        assert(between.journal()[first] == (EngineCall::Datagram { now, peer, data, found }));
        assert(between.journal().subrange(0, first) == before.journal());
        if routed is Orphaned {
            assert(after.journal().drop_last() == between.journal());
            assert(after.journal()[first] == between.journal()[first]);
            assert(after.journal().subrange(0, first) == between.journal().subrange(0, first));
        }
    }

    /// One step, as far as the registry and the engine's connections go:
    /// around one connection `handle`, either the registry stays and the
    /// engine gains at most that connection, or the registry loses its entry
    /// and the engine loses at most that connection, or the registry gains
    /// an entry for a connection that the engine holds.
    pub open spec fn moved_at(before: Self, after: Self, handle: usize) -> bool {
        ||| {
            &&& after.registry() == before.registry()
            &&& (after.connections() == before.connections() || after.connections()
                == before.connections().insert(handle))
        }
        ||| {
            &&& after.registry() == before.registry().remove(handle)
            &&& (after.connections() == before.connections() || after.connections()
                == before.connections().remove(handle))
        }
        ||| {
            &&& after.connections() == before.connections()
            &&& after.connections().contains(handle)
            &&& after.registry().contains_key(handle)
            &&& after.registry() == before.registry().insert(handle, after.registry()[handle])
        }
    }

    /// One step around some connection.
    pub open spec fn moved(before: Self, after: Self) -> bool {
        exists|handle: usize| #[trigger] Self::moved_at(before, after, handle)
    }

    /// A step keeps every registered connection among those that the engine
    /// holds.
    pub proof fn lemma_moved_keeps_registry_live(before: Self, after: Self)
        requires
            before.wf(),
            Self::moved(before, after),
        ensures
            after.wf(),
    {
        let handle = choose|handle: usize| #[trigger] Self::moved_at(before, after, handle);
        assert forall|h: usize| #[trigger]
            after.registry().contains_key(h) implies after.connections().contains(h) by {
            if h != handle {
                assert(before.registry().contains_key(h));
            } else if !after.connections().contains(h) {
                assert(before.registry().contains_key(h));
            }
        }
    }

    /// Over any run of steps that starts with every registered connection
    /// held by the engine, the same is true after each step: at no point
    /// between steps does the registry name a connection that the engine has
    /// let go.
    pub proof fn lemma_run_keeps_registry_live(states: Seq<Self>)
        requires
            states.len() > 0,
            states[0].wf(),
            forall|i: int| 0 <= i < states.len() - 1 ==> Self::moved(#[trigger] states[i], states[i + 1]),
        ensures
            forall|i: int| 0 <= i < states.len() ==> (#[trigger] states[i]).wf(),
        decreases states.len(),
    {
        if states.len() > 1 {
            let earlier = states.drop_last();
            assert forall|i: int| 0 <= i < earlier.len() - 1 implies Self::moved(
                #[trigger] earlier[i],
                earlier[i + 1],
            ) by {
                assert(Self::moved(states[i], states[i + 1]));
            }
            Self::lemma_run_keeps_registry_live(earlier);
            let last = states.len() - 1;
            assert(earlier[last - 1].wf());
            assert(Self::moved(states[last - 1], states[last]));
            Self::lemma_moved_keeps_registry_live(states[last - 1], states[last]);
            assert forall|i: int| 0 <= i < states.len() implies (#[trigger] states[i]).wf() by {
                if i < last {
                    assert(earlier[i].wf());
                }
            }
        }
    }

    /// Handing an event to the engine is one step.
    pub proof fn lemma_forwarded_moves(
        before: Self,
        after: Self,
        handle: usize,
        event: quinn_proto::EndpointEvent,
        reply: Option<quinn_proto::ConnectionEvent>,
    )
        requires
            Self::forwarded(before, after, handle, event, reply),
        ensures
            Self::moved(before, after),
    {
        assert(Self::moved_at(before, after, handle));
    }

    /// Receiving a datagram is one step.
    pub proof fn lemma_received_moves<S, F: Fn(&W) -> Option<S>>(
        before: Self,
        after: Self,
        now: Instant,
        peer: SocketAddr,
        data: Seq<u8>,
        upgrade: F,
        routed: Routed<S>,
    )
        requires
            Self::received(before, after, now, peer, data, upgrade, routed),
        ensures
            Self::moved(before, after),
    {
        let (found, between) = choose|found: Option<Datagram>, between: Self|
            {
                &&& #[trigger] Self::handed(before, between, now, peer, data, found)
                &&& Self::dispatched(between, after, found, upgrade, routed)
            };
        match found {
            None => {
                assert(Self::moved_at(before, after, 0));
            },
            Some(Datagram::NewConnection { handle, .. }) => {
                assert(Self::moved_at(before, after, handle));
            },
            Some(Datagram::ConnectionEvent { handle, .. }) => {
                assert(Self::moved_at(before, after, handle));
            },
        }
    }

    /// Asking the engine for a connection is one step.
    pub proof fn lemma_asked_moves(
        before: Self,
        after: Self,
        config: Config,
        remote: SocketAddr,
        made: Result<(usize, Connection), quinn_proto::ConnectError>,
    )
        requires
            Self::asked(before, after, config, remote, made),
        ensures
            Self::moved(before, after),
    {
        match made {
            Ok((handle, _)) => {
                assert(Self::moved_at(before, after, handle));
            },
            Err(_) => {
                assert(Self::moved_at(before, after, 0));
            },
        }
    }

    /// Entering the multiplexer of a connection that the engine holds is
    /// one step.
    pub proof fn lemma_entered_moves<U, G: FnOnce(usize, Connection) -> (W, U)>(
        before: Self,
        after: Self,
        spawn: G,
        handle: usize,
        connection: Connection,
        upgrade: U,
    )
        requires
            Self::entered(before, after, spawn, handle, connection, upgrade),
            before.connections().contains(handle),
            after.connections() == before.connections(),
        ensures
            Self::moved(before, after),
    {
        assert(Self::moved_at(before, after, handle));
    }

    /// Turning a connection away is one step, and so is acting on the
    /// queue's answer.
    pub proof fn lemma_settled_moves(before: Self, after: Self, handle: usize, queued: bool)
        requires
            Self::settled(before, after, handle, queued) || Self::refused(before, after, handle),
        ensures
            Self::moved(before, after),
    {
        assert(Self::moved_at(before, after, handle));
    }

    /// At `at`, the journal holds the datagram `arrival`, which the engine
    /// found to belong to the connection `handle`, and right after it the
    /// one event that tells the engine that this connection is drained.
    pub open spec fn journalled_orphan(
        journal: Seq<EngineCall>,
        at: int,
        arrival: Arrival,
        handle: usize,
    ) -> bool {
        &&& 0 <= at && at + 1 < journal.len()
        &&& journal[at] matches EngineCall::Datagram { now, peer, data, found }
        &&& now == arrival.now
        &&& peer == arrival.peer
        &&& data == arrival.data
        &&& found matches Some(Datagram::ConnectionEvent { handle: of, .. })
        &&& of == handle
        &&& journal[at + 1] matches EngineCall::Event { handle: told, event, reply }
        &&& told == handle
        &&& event_is_drained(event)
        &&& reply is None
    }

    /// A run of datagrams, each for a connection whose multiplexer is not
    /// found: `states[i]` is the state before the datagram `arrivals[i]`,
    /// `states[i + 1]` the state after it, and `handles[i]` the connection
    /// that was reaped for it.
    pub open spec fn orphaned_run<S, F: Fn(&W) -> Option<S>>(
        states: Seq<Self>,
        arrivals: Seq<Arrival>,
        handles: Seq<usize>,
        upgrade: F,
    ) -> bool {
        &&& states.len() == arrivals.len() + 1
        &&& handles.len() == arrivals.len()
        &&& forall|i: int|
            0 <= i < arrivals.len() ==> Self::received(
                #[trigger] states[i],
                states[i + 1],
                arrivals[i].now,
                arrivals[i].peer,
                arrivals[i].data,
                upgrade,
                Routed::<S>::Orphaned { handle: handles[i] },
            )
    }

    /// A datagram for a connection whose multiplexer is not found adds two
    /// entries to the journal, itself and the one event that reaps the
    /// connection, and leaves the connection neither in the registry nor in
    /// the engine.
    pub proof fn lemma_orphaned_step<S, F: Fn(&W) -> Option<S>>(
        before: Self,
        after: Self,
        arrival: Arrival,
        upgrade: F,
        handle: usize,
    )
        requires
            Self::received(
                before,
                after,
                arrival.now,
                arrival.peer,
                arrival.data,
                upgrade,
                Routed::<S>::Orphaned { handle },
            ),
        ensures
            after.journal().len() == before.journal().len() + 2,
            after.journal().subrange(0, before.journal().len() as int) == before.journal(),
            Self::journalled_orphan(after.journal(), before.journal().len() as int, arrival, handle),
            after.pending() == before.pending(),
            !after.registry().contains_key(handle),
            !after.connections().contains(handle),
    {
        let routed = Routed::<S>::Orphaned { handle };
        let (found, between) = choose|found: Option<Datagram>, between: Self|
            {
                &&& #[trigger] Self::handed(
                    before,
                    between,
                    arrival.now,
                    arrival.peer,
                    arrival.data,
                    found,
                )
                &&& Self::dispatched(between, after, found, upgrade, routed)
            };
        let first = before.journal().len() as int;
        assert(between.journal()[first] == (EngineCall::Datagram {
            now: arrival.now,
            peer: arrival.peer,
            data: arrival.data,
            found,
        }));
        assert(between.journal().subrange(0, first) == before.journal());
        assert(after.journal().drop_last() == between.journal());
        assert(after.journal()[first] == after.journal().drop_last()[first]);
        assert(after.journal().subrange(0, first) == between.journal().subrange(0, first));
        assert(after.journal()[first + 1] == after.journal().last());
    }

    /// Over a run of datagrams, each for a connection whose multiplexer is
    /// not found, the engine hears of each datagram and then exactly once
    /// that its connection is drained, in the order of arrival, and of
    /// nothing else; nothing is owed to any multiplexer, and the packet held
    /// back for the socket stays as it is.
    pub proof fn lemma_orphaned_run<S, F: Fn(&W) -> Option<S>>(
        states: Seq<Self>,
        arrivals: Seq<Arrival>,
        handles: Seq<usize>,
        upgrade: F,
    )
        requires
            Self::orphaned_run::<S, F>(states, arrivals, handles, upgrade),
        ensures
            states.last().journal().len() == states[0].journal().len() + 2 * arrivals.len(),
            states.last().journal().subrange(0, states[0].journal().len() as int)
                == states[0].journal(),
            forall|i: int|
                0 <= i < arrivals.len() ==> #[trigger] Self::journalled_orphan(
                    states.last().journal(),
                    states[0].journal().len() + 2 * i,
                    arrivals[i],
                    handles[i],
                ),
            states.last().pending() == states[0].pending(),
        decreases arrivals.len(),
    {
        let first = states[0].journal().len() as int;
        if arrivals.len() == 0 {
            assert(states.last() == states[0]);
            assert(states[0].journal().subrange(0, first) == states[0].journal());
        } else {
            let n = arrivals.len() - 1;
            let earlier = states.drop_last();
            assert forall|i: int| 0 <= i < n implies Self::received(
                #[trigger] earlier[i],
                earlier[i + 1],
                arrivals.drop_last()[i].now,
                arrivals.drop_last()[i].peer,
                arrivals.drop_last()[i].data,
                upgrade,
                Routed::<S>::Orphaned { handle: handles.drop_last()[i] },
            ) by {
                assert(Self::received(
                    states[i],
                    states[i + 1],
                    arrivals[i].now,
                    arrivals[i].peer,
                    arrivals[i].data,
                    upgrade,
                    Routed::<S>::Orphaned { handle: handles[i] },
                ));
            }
            Self::lemma_orphaned_run::<S, F>(
                earlier,
                arrivals.drop_last(),
                handles.drop_last(),
                upgrade,
            );
            let before = states[n];
            let after = states[n + 1];
            assert(earlier.last() == before);
            assert(earlier[0] == states[0]);
            assert(states.last() == after);
            assert(Self::received(
                states[n],
                states[n + 1],
                arrivals[n].now,
                arrivals[n].peer,
                arrivals[n].data,
                upgrade,
                Routed::<S>::Orphaned { handle: handles[n] },
            ));
            Self::lemma_orphaned_step::<S, F>(before, after, arrivals[n], upgrade, handles[n]);
            let middle = before.journal().len() as int;
            assert(middle == first + 2 * n);
            assert forall|k: int| 0 <= k < middle implies after.journal()[k]
                == before.journal()[k] by {
                assert(after.journal().subrange(0, middle)[k] == after.journal()[k]);
            }
            assert(after.journal().subrange(0, first) =~= states[0].journal()) by {
                assert forall|k: int| 0 <= k < first implies after.journal().subrange(0, first)[k]
                    == states[0].journal()[k] by {
                    assert(before.journal().subrange(0, first)[k] == before.journal()[k]);
                }
            }
            assert forall|i: int| 0 <= i < arrivals.len() implies #[trigger] Self::journalled_orphan(
                after.journal(),
                first + 2 * i,
                arrivals[i],
                handles[i],
            ) by {
                if i < n {
                    assert(Self::journalled_orphan(
                        before.journal(),
                        first + 2 * i,
                        arrivals.drop_last()[i],
                        handles.drop_last()[i],
                    ));
                    assert(after.journal()[first + 2 * i] == before.journal()[first + 2 * i]);
                    assert(after.journal()[first + 2 * i + 1] == before.journal()[first + 2 * i
                        + 1]);
                }
            }
        }
    }

    /// The engine has been asked once for a connection to `remote`, with the
    /// client settings of `config` and under the server name that every
    /// dial uses, and has answered `made`.
    pub open spec fn asked(
        before: Self,
        after: Self,
        config: Config,
        remote: SocketAddr,
        made: Result<(usize, Connection), quinn_proto::ConnectError>,
    ) -> bool {
        &&& after.journal() == before.journal().push(
            EngineCall::Connect { config, remote, server_name: "localhost"@, made },
        )
        &&& after.registry() == before.registry()
        &&& after.pending() == before.pending()
        &&& match made {
            Ok((handle, _)) => {
                &&& !before.connections().contains(handle)
                &&& after.connections() == before.connections().insert(handle)
            },
            Err(_) => after.connections() == before.connections(),
        }
    }

    /// An inbound connection that nobody is there to take has been turned
    /// away: the engine was told to accept it and then to reject all further
    /// ones, and the registry has no entry for it.
    pub open spec fn refused(before: Self, after: Self, handle: usize) -> bool {
        &&& after.journal() == before.journal().push(EngineCall::Accept).push(
            EngineCall::RejectNew,
        )
        &&& after.registry() == before.registry().remove(handle)
        &&& after.connections() == before.connections()
        &&& after.pending() == before.pending()
    }

    /// The answer of the announcement queue has been acted on: a connection
    /// that was announced stays as it is, one that was not is turned away.
    pub open spec fn settled(before: Self, after: Self, handle: usize, queued: bool) -> bool {
        if queued {
            after == before
        } else {
            Self::refused(before, after, handle)
        }
    }

    /// Hands an event of the connection `handle` to the engine and returns
    /// the engine's reply. When the event says that the connection is
    /// drained, the registry forgets the connection in the same step.
    pub fn handle_event(&mut self, handle: usize, event: quinn_proto::EndpointEvent) -> (reply:
        Option<quinn_proto::ConnectionEvent>)
        requires
            old(self).wf(),
            old(self).connections().contains(handle),
        ensures
            final(self).wf(),
            Self::forwarded(*old(self), *final(self), handle, event, reply),
    {
        let reply = if is_drained(&event) {
            let reply = self.engine.handle_event(handle, event);
            self.muxers.remove(&handle);
            reply
        } else {
            self.engine.handle_event(handle, event)
        };
        proof {
            Self::lemma_wf_kept(*old(self), *self);
        }
        reply
    }

    /// Looks `handle` up in the registry and asks `upgrade` whether its
    /// multiplexer is still there.
    fn resolve<S, F: Fn(&W) -> Option<S>>(&self, handle: usize, upgrade: &F) -> (target: Option<S>)
        requires
            forall|w: &W| upgrade.requires((w,)),
        ensures
            self.resolves(handle, *upgrade, target),
    {
        match self.muxers.get(&handle) {
            Some(weak) => upgrade(weak),
            None => None,
        }
    }

    /// Tells the engine that the connection `handle`, whose multiplexer is
    /// gone, is drained. The engine has no reply to that.
    fn reap(&mut self, handle: usize)
        requires
            old(self).wf(),
            old(self).connections().contains(handle),
        ensures
            final(self).wf(),
            Self::reaped(*old(self), *final(self), handle),
    {
        let reply = self.handle_event(handle, drained_event());
        assert(self.journal().drop_last() == old(self).journal());
    }

    /// Takes one message of a connection.
    ///
    /// That a connection was accepted is passed on to the engine. An event
    /// of a connection is handed to the engine and the engine's reply is
    /// owed to the connection's multiplexer, as long as `upgrade` still
    /// finds it; if the multiplexer is gone, the event is dropped and the
    /// connection is reaped instead. A message of a connection that the
    /// registry does not name changes nothing.
    pub fn route_message<S, F: Fn(&W) -> Option<S>>(
        &mut self,
        message: EndpointMessage,
        upgrade: &F,
    ) -> (routed: Routed<S>)
        requires
            old(self).wf(),
            forall|w: &W| upgrade.requires((w,)),
        ensures
            final(self).wf(),
            match message {
                EndpointMessage::ConnectionAccepted => {
                    &&& routed is Settled
                    &&& final(self).journal() == old(self).journal().push(EngineCall::Accept)
                    &&& final(self).registry() == old(self).registry()
                    &&& final(self).connections() == old(self).connections()
                    &&& final(self).pending() == old(self).pending()
                },
                EndpointMessage::EndpointEvent { handle, event } => match routed {
                    Routed::Unknown { handle: named } => {
                        &&& named == handle
                        &&& !old(self).registry().contains_key(handle)
                        &&& *final(self) == *old(self)
                    },
                    Routed::Orphaned { handle: gone } => {
                        &&& gone == handle
                        &&& old(self).registry().contains_key(handle)
                        &&& upgrade.ensures((&old(self).registry()[handle],), None::<S>)
                        &&& Self::reaped(*old(self), *final(self), handle)
                    },
                    Routed::Deliver { handle: to, muxer, event: reply } => {
                        &&& to == handle
                        &&& old(self).registry().contains_key(handle)
                        &&& upgrade.ensures((&old(self).registry()[handle],), Some(muxer))
                        &&& Self::forwarded(*old(self), *final(self), handle, event, reply)
                    },
                    _ => false,
                },
            },
    {
        match message {
            EndpointMessage::ConnectionAccepted => {
                self.engine.accept();
                proof {
                    Self::lemma_wf_kept(*old(self), *self);
                }
                Routed::Settled
            },
            EndpointMessage::EndpointEvent { handle, event } => {
                if !self.is_registered(handle) {
                    return Routed::Unknown { handle };
                }
                match self.resolve(handle, upgrade) {
                    None => {
                        self.reap(handle);
                        Routed::Orphaned { handle }
                    },
                    Some(muxer) => {
                        let reply = self.handle_event(handle, event);
                        Routed::Deliver { handle, muxer, event: reply }
                    },
                }
            },
        }
    }

    /// Routes what the engine made of a datagram.
    ///
    /// An event for a connection is owed to the connection's multiplexer. If
    /// the registry has no entry for the connection, or `upgrade` no longer
    /// finds the multiplexer, nothing is delivered: the engine is told once
    /// that the connection is drained, and the registry forgets it. A new
    /// connection is handed back to the caller untouched.
    pub fn dispatch<S, F: Fn(&W) -> Option<S>>(
        &mut self,
        found: Option<Datagram>,
        upgrade: &F,
    ) -> (routed: Routed<S>)
        requires
            old(self).wf(),
            forall|w: &W| upgrade.requires((w,)),
            found matches Some(Datagram::ConnectionEvent { handle, .. }) ==> old(
                self,
            ).connections().contains(handle),
        ensures
            final(self).wf(),
            Self::dispatched(*old(self), *final(self), found, *upgrade, routed),
    {
        match found {
            None => Routed::Settled,
            Some(Datagram::NewConnection { handle, connection }) => Routed::NewConnection {
                handle,
                connection,
            },
            Some(Datagram::ConnectionEvent { handle, event }) => match self.resolve(
                handle,
                upgrade,
            ) {
                Some(muxer) => Routed::Deliver { handle, muxer, event: Some(event) },
                None => {
                    self.reap(handle);
                    Routed::Orphaned { handle }
                },
            },
        }
    }

    /// Hands the engine the bytes `data`, which arrived from `peer` at
    /// `now`, and routes what the engine made of them.
    pub fn receive<S, F: Fn(&W) -> Option<S>>(
        &mut self,
        now: Instant,
        peer: &SocketAddr,
        data: &[u8],
        upgrade: &F,
    ) -> (routed: Routed<S>)
        requires
            old(self).wf(),
            forall|w: &W| upgrade.requires((w,)),
        ensures
            final(self).wf(),
            Self::received(*old(self), *final(self), now, *peer, data@, *upgrade, routed),
    {
        let found = self.engine.handle(now, peer, data);
        let ghost between = *self;
        proof {
            Self::lemma_wf_kept(*old(self), *self);
            assert(Self::handed(*old(self), between, now, *peer, data@, found));
        }
        let routed = self.dispatch(found, upgrade);
        proof {
            assert(Self::dispatched(between, *self, found, *upgrade, routed));
        }
        routed
    }

    /// Asks the engine for a connection to `remote`, with the client
    /// settings of `config` and under the server name that every dial uses,
    /// and returns the engine's answer.
    pub fn connect(&mut self, config: &Config, remote: &SocketAddr) -> (made: Result<
        (usize, Connection),
        quinn_proto::ConnectError,
    >)
        requires
            old(self).wf(),
        ensures
            final(self).wf(),
            Self::asked(*old(self), *final(self), *config, *remote, made),
    {
        let made = self.engine.connect(config, remote, "localhost");
        proof {
            Self::lemma_wf_kept(*old(self), *self);
        }
        made
    }

    /// Makes the multiplexer of the connection `handle` and enters it in the
    /// registry. `spawn` builds the multiplexer and gives back the reference
    /// that the registry keeps and whatever the caller is to get.
    pub fn create_muxer<U, G: FnOnce(usize, Connection) -> (W, U)>(
        &mut self,
        connection: Connection,
        handle: usize,
        spawn: G,
    ) -> (upgrade: U)
        requires
            old(self).wf(),
            old(self).connections().contains(handle),
            spawn.requires((handle, connection)),
        ensures
            final(self).wf(),
            Self::entered(*old(self), *final(self), spawn, handle, connection, upgrade),
            final(self).connections() == old(self).connections(),
            final(self).journal() == old(self).journal(),
            final(self).pending() == old(self).pending(),
    {
        let (weak, upgrade) = spawn(handle, connection);
        let ghost entry = weak;
        self.muxers.insert(handle, weak);
        proof {
            assert(self.registry() == old(self).registry().insert(handle, entry));
            Self::lemma_wf_kept(*old(self), *self);
        }
        upgrade
    }

    /// Turns an inbound connection away that nobody is there to take: the
    /// engine is told to accept it and then to reject all further ones, and
    /// the registry forgets it.
    pub fn refuse(&mut self, handle: usize)
        requires
            old(self).wf(),
        ensures
            final(self).wf(),
            Self::refused(*old(self), *final(self), handle),
    {
        self.engine.accept();
        self.engine.reject_new_connections();
        self.muxers.remove(&handle);
        proof {
            Self::lemma_wf_kept(*old(self), *self);
        }
    }

    /// Acts on the answer of the announcement queue to the offer of the
    /// connection `handle`: if the queue took the offer, there is nothing
    /// left to do; if it did not, the connection is turned away.
    pub fn settle(&mut self, handle: usize, queued: bool)
        requires
            old(self).wf(),
        ensures
            final(self).wf(),
            Self::settled(*old(self), *final(self), handle, queued),
    {
        if !queued {
            self.refuse(handle);
        }
    }

    /// Whether a packet is held back for the socket.
    pub fn has_pending(&self) -> (held: bool)
        ensures
            held == self.pending() is Some,
    {
        self.pending.is_some()
    }

    /// The packet to hand to the socket next: the one held back, if there is
    /// one, and only else the engine's next, as the engine gave it.
    pub fn next_transmit(&mut self) -> (packet: Option<quinn_proto::Transmit>)
        ensures
            final(self).pending() is None,
            final(self).registry() == old(self).registry(),
            final(self).connections() == old(self).connections(),
            match old(self).pending() {
                Some(held) => packet == Some(held) && final(self).journal() == old(self).journal(),
                None => final(self).journal() == old(self).journal().push(
                    EngineCall::PollTransmit { packet },
                ),
            },
    {
        match self.pending.take() {
            Some(held) => Some(held),
            None => self.engine.poll_transmit(),
        }
    }

    /// Keeps a packet that the socket could not take, to be offered again
    /// before the engine is asked for more. At most one packet is held.
    pub fn hold_transmit(&mut self, packet: quinn_proto::Transmit)
        requires
            old(self).pending() is None,
        ensures
            final(self).pending() == Some(packet),
            final(self).registry() == old(self).registry(),
            final(self).connections() == old(self).connections(),
            final(self).journal() == old(self).journal(),
    {
        self.pending = Some(packet);
    }
}

} // verus!
