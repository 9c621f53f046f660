//! Connection state machine and pump decisions.
//!
//! The machine owns the handshake sequence and the steady-state subscribe
//! and unsubscribe operations, and decides what each inbound payload means.
//! It never touches a socket: an outer layer opens the transport, drains the
//! outbound queue to it in FIFO order, feeds every inbound payload to
//! `on_inbound`, and carries out the returned disposition (signalling the
//! one-shot readiness wait, decoding a trade body, reporting an error).
//! CONNECT therefore reaches the wire before any SUBSCRIBE: both leave
//! through the same queue, in the order they were enqueued.

use vstd::prelude::*;
use vstd::string::StringSliceAdditionalSpecFns;
use crate::codec::TossStompResponseType;
use crate::codec::classify;
use crate::codec::connect_frame;
use crate::codec::subscribe_frame;
use crate::codec::unsubscribe_frame;
use crate::errors::StreamError;
use crate::parse::sep_pos;
use crate::parse::split_frame;
use crate::parse::strip_nuls;
use crate::parse::remove_nuls;
use crate::registry::SubscriptionRegistry;
use crate::stomper::TossStomper;

verus! {

/// Where a connection stands in its lifecycle.
#[derive(Clone, Copy, Debug, PartialEq, Eq, Structural)]
pub enum ConnState {
    /// Constructed; transport not yet opened.
    Idle,
    /// `start` has been called; the transport is being opened.
    Connecting,
    /// CONNECT is enqueued; waiting for an inbound Connected frame.
    AwaitingHandshake,
    /// The handshake completed; subscribe and unsubscribe are valid.
    Ready,
    /// The transport failed or closed; no further operation is valid.
    Closed,
}

/// What an inbound payload asked for. The outer layer carries it out.
#[derive(Debug)]
pub enum Disposition {
    /// A one-byte heartbeat ping; the reply is already enqueued.
    HeartbeatAnswered,
    /// The first Connected frame; release the caller blocked in `start`.
    ReadySignaled,
    /// A Connected frame after readiness already fired; nothing to do.
    ConnectedIgnored,
    /// A MESSAGE frame; decode this body into a trade and hand it to the
    /// registered handler.
    TradeBody(String),
    /// A RECEIPT frame; informational.
    ReceiptSeen,
    /// An unrecognized command; informational.
    UnknownSeen,
    /// A payload with no blank-line separator; report a decode error and
    /// keep the connection running.
    MalformedFrame,
}

/// The one-byte heartbeat reply.
pub open spec fn heartbeat_reply() -> Seq<char> {
    "\n"@
}

/// The header block of a framed payload: everything before the first blank
/// line.
pub open spec fn frame_header(text: Seq<char>) -> Seq<char> {
    text.subrange(0, sep_pos(text))
}

/// The raw body of a framed payload: everything after the first blank line.
pub open spec fn frame_body(text: Seq<char>) -> Seq<char> {
    text.subrange(sep_pos(text) + 2, text.len() as int)
}

/// A heartbeat ping: a payload of exactly one byte.
pub open spec fn is_heartbeat(payload: &str) -> bool {
    payload.spec_bytes().len() as usize == 1
}

/// A payload that is not a heartbeat, is well framed, and classifies as
/// Connected.
pub open spec fn is_connected_payload(payload: &str) -> bool {
    !is_heartbeat(payload) && sep_pos(payload@) != -1 && classify(frame_header(payload@)) is Connected
}

/// The protocol engine of one connection, without its transport.
pub struct TossWebSock {
    stomper: TossStomper,
    state: ConnState,
    ready_fired: bool,
    outbound: Vec<String>,
}

impl TossWebSock {
    /// The lifecycle state.
    pub closed spec fn conn_state(self) -> ConnState {
        self.state
    }

    /// Whether the one-shot readiness signal has fired.
    pub closed spec fn has_fired(self) -> bool {
        self.ready_fired
    }

    /// The queued outbound frames, oldest first.
    pub closed spec fn outbound_view(self) -> Seq<Seq<char>> {
        self.outbound@.map_values(|s: String| s@)
    }

    /// The STOMP engine, with the credentials and the registry.
    pub closed spec fn engine(self) -> TossStomper {
        self.stomper
    }

    /// The subscription registry.
    pub open spec fn registry(self) -> SubscriptionRegistry {
        self.engine().registry()
    }

    /// Machine invariant: the registry is well formed, and a machine that
    /// reached `Ready` has fired its readiness signal.
    pub open spec fn wf(self) -> bool {
        &&& self.engine().wf()
        &&& self.conn_state() == ConnState::Ready ==> self.has_fired()
    }

    /// Everything but the outbound queue is unchanged.
    pub open spec fn same_core(pre: Self, post: Self) -> bool {
        &&& post.engine() == pre.engine()
        &&& post.conn_state() == pre.conn_state()
        &&& post.has_fired() == pre.has_fired()
    }

    /// A fresh machine for the given credentials: idle, nothing queued,
    /// readiness not fired, empty registry.
    pub fn new(conn_id: String, dev_id: String, utk_id: String) -> (r: Self)
        ensures
            r.wf(),
            r.conn_state() == ConnState::Idle,
            !r.has_fired(),
            r.outbound_view() =~= Seq::<Seq<char>>::empty(),
            r.engine().connection_id() == conn_id@,
            r.engine().device_id() == dev_id@,
            r.engine().auth_token() == utk_id@,
            r.registry().next_wire_id() == 0,
            forall|f: Seq<char>| !(#[trigger] r.registry().contains_feed(f)),
    {
        let stomper = TossStomper::new(conn_id, dev_id, utk_id);
        let r = TossWebSock {
            stomper,
            state: ConnState::Idle,
            ready_fired: false,
            outbound: Vec::new(),
        };
        proof {
            assert(r.outbound_view() =~= Seq::<Seq<char>>::empty());
        }
        r
    }

    /// Begins the handshake: the machine moves to `Connecting` while the
    /// outer layer opens the transport and splits it into its two halves.
    pub fn start(&mut self)
        requires
            old(self).wf(),
            old(self).conn_state() == ConnState::Idle,
        ensures
            final(self).wf(),
            final(self).conn_state() == ConnState::Connecting,
            TossStomper::same_credentials(old(self).engine(), final(self).engine()),
            final(self).engine() == old(self).engine(),
            final(self).has_fired() == old(self).has_fired(),
            final(self).outbound_view() == old(self).outbound_view(),
    {
        self.state = ConnState::Connecting;
    }

    /// The transport is open: enqueue the CONNECT frame and await the
    /// handshake. `start` must not return to its caller until an inbound
    /// Connected frame arrives.
    pub fn transport_opened(&mut self)
        requires
            old(self).wf(),
            old(self).conn_state() == ConnState::Connecting,
        ensures
            final(self).wf(),
            final(self).conn_state() == ConnState::AwaitingHandshake,
            final(self).engine() == old(self).engine(),
            final(self).has_fired() == old(self).has_fired(),
            final(self).outbound_view() =~= old(self).outbound_view().push(
                connect_frame(
                    old(self).engine().device_id(),
                    old(self).engine().connection_id(),
                    old(self).engine().auth_token(),
                ),
            ),
    {
        let frame = self.stomper.connect();
        self.outbound.push(frame);
        self.state = ConnState::AwaitingHandshake;
    }

    /// The transport failed to open, a read or write failed, or a pump loop
    /// ended: the connection is closed. Any readiness wait still pending
    /// must be failed by the outer layer so `start` does not hang.
    pub fn transport_failed(&mut self)
        requires
            old(self).wf(),
        ensures
            final(self).wf(),
            final(self).conn_state() == ConnState::Closed,
            final(self).engine() == old(self).engine(),
            final(self).has_fired() == old(self).has_fired(),
            final(self).outbound_view() == old(self).outbound_view(),
    {
        self.state = ConnState::Closed;
    }

    /// Decides what one inbound payload means.
    ///
    /// A payload of exactly one byte is a heartbeat ping: the one-byte
    /// reply is enqueued at once and the text is not classified. Anything
    /// else is split at the first blank line; a payload with none is a
    /// protocol violation, reported and otherwise ignored. The header block
    /// then decides: the first Connected frame fires readiness (exactly
    /// once; later Connected frames are ignored), a MESSAGE frame hands its
    /// body out for decoding with NUL terminators stripped, RECEIPT and
    /// unknown commands are informational.
    pub fn on_inbound(&mut self, payload: &str) -> (d: Disposition)
        requires
            old(self).wf(),
        ensures
            final(self).wf(),
            TossStomper::same_credentials(old(self).engine(), final(self).engine()),
            ({
                let hb = is_heartbeat(payload);
                let t = payload@;
                &&& (hb ==> {
                    &&& d is HeartbeatAnswered
                    &&& Self::same_core(*old(self), *final(self))
                    &&& final(self).outbound_view() =~= old(self).outbound_view().push(
                        heartbeat_reply(),
                    )
                })
                &&& (!hb && sep_pos(t) == -1 ==> {
                    &&& d is MalformedFrame
                    &&& *final(self) == *old(self)
                })
                &&& (!hb && sep_pos(t) != -1 ==> {
                    let k = classify(frame_header(t));
                    &&& (k is Connected && !old(self).has_fired() ==> {
                        &&& d is ReadySignaled
                        &&& final(self).has_fired()
                        &&& final(self).conn_state() == ConnState::Ready
                        &&& final(self).engine() == old(self).engine()
                        &&& final(self).outbound_view() == old(self).outbound_view()
                    })
                    &&& (k is Connected && old(self).has_fired() ==> {
                        &&& d is ConnectedIgnored
                        &&& *final(self) == *old(self)
                    })
                    &&& (k is Message ==> {
                        &&& (d matches Disposition::TradeBody(b) && b@ == strip_nuls(
                            frame_body(t),
                        ))
                        &&& *final(self) == *old(self)
                    })
                    &&& (k is Receipt ==> d is ReceiptSeen && *final(self) == *old(self))
                    &&& (k is Unknown ==> d is UnknownSeen && *final(self) == *old(self))
                })
            }),
            final(self).has_fired() == (old(self).has_fired() || is_connected_payload(payload)),
    {
        if payload.len() == 1 {
            self.outbound.push(String::from_str("\n"));
            proof {
                assert(self.outbound_view() =~= old(self).outbound_view().push(heartbeat_reply()));
            }
            return Disposition::HeartbeatAnswered;
        }
        match split_frame(payload) {
            None => Disposition::MalformedFrame,
            Some((header, body)) => {
                match TossStompResponseType::from_header(header.as_str()) {
                    TossStompResponseType::Connected => {
                        if !self.ready_fired {
                            self.ready_fired = true;
                            self.state = ConnState::Ready;
                            Disposition::ReadySignaled
                        } else {
                            Disposition::ConnectedIgnored
                        }
                    },
                    TossStompResponseType::Message => {
                        Disposition::TradeBody(remove_nuls(body.as_str()))
                    },
                    TossStompResponseType::Receipt => Disposition::ReceiptSeen,
                    TossStompResponseType::Unknown => Disposition::UnknownSeen,
                }
            },
        }
    }

    /// Subscribes to a feed: allocates a wire ID and enqueues the SUBSCRIBE
    /// frame. Valid only once the machine is `Ready`; before that the call
    /// fails fast with `NotReady`, after a close with `ConnectionClosed`,
    /// and a feed already subscribed with `DuplicateSubscription` — in each
    /// case nothing changes.
    pub fn register_stock(&mut self, stock_code: String) -> (r: Result<(), StreamError>)
        requires
            old(self).wf(),
            old(self).registry().next_wire_id() < u32::MAX,
        ensures
            final(self).wf(),
            TossStomper::same_credentials(old(self).engine(), final(self).engine()),
            old(self).conn_state() == ConnState::Closed ==> r == Err::<(), StreamError>(
                StreamError::ConnectionClosed,
            ) && *final(self) == *old(self),
            old(self).conn_state() != ConnState::Closed && old(self).conn_state()
                != ConnState::Ready ==> r == Err::<(), StreamError>(StreamError::NotReady) && *final(self) == *old(self),
            old(self).conn_state() == ConnState::Ready && old(self).registry().contains_feed(
                stock_code@,
            ) ==> r == Err::<(), StreamError>(StreamError::DuplicateSubscription) && *final(self)
                == *old(self),
            old(self).conn_state() == ConnState::Ready && !old(self).registry().contains_feed(
                stock_code@,
            ) ==> {
                &&& r == Ok::<(), StreamError>(())
                &&& SubscriptionRegistry::alloc_effect(
                    old(self).registry(),
                    final(self).registry(),
                    stock_code@,
                )
                &&& final(self).conn_state() == ConnState::Ready
                &&& final(self).has_fired() == old(self).has_fired()
                &&& final(self).outbound_view() =~= old(self).outbound_view().push(
                    subscribe_frame(old(self).registry().next_wire_id() as nat, stock_code@),
                )
            },
    {
        match self.state {
            ConnState::Closed => Err(StreamError::ConnectionClosed),
            ConnState::Ready => {
                match self.stomper.subscribe(stock_code) {
                    Err(e) => Err(e),
                    Ok(frame) => {
                        self.outbound.push(frame);
                        Ok(())
                    },
                }
            },
            _ => Err(StreamError::NotReady),
        }
    }

    /// Unsubscribes from a feed: releases its wire ID and enqueues the
    /// UNSUBSCRIBE frame. Fails fast like `register_stock`; a feed not
    /// subscribed fails with `UnknownSubscription`, and nothing changes.
    pub fn unregister_stock(&mut self, stock_code: String) -> (r: Result<(), StreamError>)
        requires
            old(self).wf(),
        ensures
            final(self).wf(),
            TossStomper::same_credentials(old(self).engine(), final(self).engine()),
            old(self).conn_state() == ConnState::Closed ==> r == Err::<(), StreamError>(
                StreamError::ConnectionClosed,
            ) && *final(self) == *old(self),
            old(self).conn_state() != ConnState::Closed && old(self).conn_state()
                != ConnState::Ready ==> r == Err::<(), StreamError>(StreamError::NotReady) && *final(self) == *old(self),
            old(self).conn_state() == ConnState::Ready && !old(self).registry().contains_feed(
                stock_code@,
            ) ==> r == Err::<(), StreamError>(StreamError::UnknownSubscription) && *final(self)
                == *old(self),
            old(self).conn_state() == ConnState::Ready && old(self).registry().contains_feed(
                stock_code@,
            ) ==> {
                &&& r == Ok::<(), StreamError>(())
                &&& SubscriptionRegistry::release_effect(
                    old(self).registry(),
                    final(self).registry(),
                    stock_code@,
                )
                &&& final(self).conn_state() == ConnState::Ready
                &&& final(self).has_fired() == old(self).has_fired()
                &&& final(self).outbound_view() =~= old(self).outbound_view().push(
                    unsubscribe_frame(old(self).registry().id_of(stock_code@) as nat),
                )
            },
    {
        match self.state {
            ConnState::Closed => Err(StreamError::ConnectionClosed),
            ConnState::Ready => {
                match self.stomper.unsubscribe(stock_code) {
                    Err(e) => Err(e),
                    Ok(frame) => {
                        self.outbound.push(frame);
                        Ok(())
                    },
                }
            },
            _ => Err(StreamError::NotReady),
        }
    }

    /// Takes the oldest queued outbound frame, if any. The outer layer's
    /// send loop drains the queue with this, so frames reach the transport
    /// in the exact order they were enqueued.
    pub fn pop_outbound(&mut self) -> (r: Option<String>)
        requires
            old(self).wf(),
        ensures
            final(self).wf(),
            Self::same_core(*old(self), *final(self)),
            old(self).outbound_view().len() == 0 ==> r is None && *final(self) == *old(self),
            old(self).outbound_view().len() > 0 ==> {
                &&& r matches Some(f) && f@ == old(self).outbound_view()[0]
                &&& final(self).outbound_view() =~= old(self).outbound_view().skip(1)
            },
    {
        if self.outbound.len() == 0 {
            None
        } else {
            let f = self.outbound.remove(0);
            proof {
                assert(self.outbound_view() =~= old(self).outbound_view().skip(1));
            }
            Some(f)
        }
    }

    /// How many outbound frames are queued.
    pub fn outbound_len(&self) -> (r: usize)
        ensures
            r == self.outbound_view().len(),
    {
        self.outbound.len()
    }

    /// The lifecycle state, for callers outside the verified core.
    pub fn current_state(&self) -> (r: ConnState)
        ensures
            r == self.conn_state(),
    {
        self.state
    }

    /// The counter value that the next subscription will take as its wire
    /// ID; callers guard against counter exhaustion with it.
    pub fn wire_counter(&self) -> (r: u32)
        ensures
            r == self.registry().next_wire_id(),
    {
        self.stomper.wire_counter()
    }
}

/// Law: the readiness signal fires exactly once. A machine that has not
/// fired fires on a Connected payload; by `on_inbound`'s contract a machine
/// that has fired answers every further Connected payload with
/// `ConnectedIgnored` and does not change, so a second Connected frame
/// neither panics nor re-fires.
pub proof fn lemma_ready_fires_once(
    m0: TossWebSock,
    m1: TossWebSock,
    payload: &str,
)
    requires
        !m0.has_fired(),
        is_connected_payload(payload),
        m1.has_fired() == (m0.has_fired() || is_connected_payload(payload)),
    ensures
        m1.has_fired(),
{
}

} // verus!
