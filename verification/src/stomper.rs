//! The STOMP-side engine of one connection: holds the credentials and the
//! subscription registry, and produces the outbound frames.

use vstd::prelude::*;
use crate::codec::build_connect;
use crate::codec::build_subscribe;
use crate::codec::build_unsubscribe;
use crate::codec::connect_frame;
use crate::codec::subscribe_frame;
use crate::codec::unsubscribe_frame;
use crate::errors::StreamError;
use crate::registry::SubscriptionRegistry;

verus! {

/// Builds the outbound frames of one connection and tracks its
/// subscriptions.
pub struct TossStomper {
    conn_id: String,
    dev_id: String,
    utk_id: String,
    registry: SubscriptionRegistry,
}

impl TossStomper {
    /// The connection identifier this engine was built with.
    pub closed spec fn connection_id(self) -> Seq<char> {
        self.conn_id@
    }

    /// The device identifier this engine was built with.
    pub closed spec fn device_id(self) -> Seq<char> {
        self.dev_id@
    }

    /// The authorization token this engine was built with.
    pub closed spec fn auth_token(self) -> Seq<char> {
        self.utk_id@
    }

    /// The subscription registry of this connection.
    pub closed spec fn registry(self) -> SubscriptionRegistry {
        self.registry
    }

    /// The credentials are immutable for the lifetime of a connection.
    pub open spec fn same_credentials(pre: Self, post: Self) -> bool {
        &&& post.connection_id() == pre.connection_id()
        &&& post.device_id() == pre.device_id()
        &&& post.auth_token() == pre.auth_token()
    }

    pub open spec fn wf(self) -> bool {
        self.registry().wf()
    }

    /// A fresh engine for the given credentials, with an empty registry.
    pub fn new(conn_id: String, dev_id: String, utk_id: String) -> (r: Self)
        ensures
            r.wf(),
            r.connection_id() == conn_id@,
            r.device_id() == dev_id@,
            r.auth_token() == utk_id@,
            r.registry().next_wire_id() == 0,
            forall|f: Seq<char>| !(#[trigger] r.registry().contains_feed(f)),
    {
        TossStomper { conn_id, dev_id, utk_id, registry: SubscriptionRegistry::new() }
    }

    /// The counter value that the next subscription will take as its wire
    /// ID.
    pub fn wire_counter(&self) -> (r: u32)
        ensures
            r == self.registry().next_wire_id(),
    {
        self.registry.counter()
    }

    /// The CONNECT frame for this connection's credentials. Pure
    /// formatting; nothing changes.
    pub fn connect(&mut self) -> (r: String)
        ensures
            *final(self) == *old(self),
            r@ == connect_frame(
                old(self).device_id(),
                old(self).connection_id(),
                old(self).auth_token(),
            ),
    {
        build_connect(self.dev_id.as_str(), self.conn_id.as_str(), self.utk_id.as_str())
    }

    /// Registers `stock_code` and returns the SUBSCRIBE frame for its new
    /// wire ID; fails with `DuplicateSubscription`, changing nothing, when
    /// the feed is already subscribed.
    pub fn subscribe(&mut self, stock_code: String) -> (r: Result<String, StreamError>)
        requires
            old(self).wf(),
            old(self).registry().next_wire_id() < u32::MAX,
        ensures
            final(self).wf(),
            Self::same_credentials(*old(self), *final(self)),
            old(self).registry().contains_feed(stock_code@) ==> r == Err::<String, StreamError>(
                StreamError::DuplicateSubscription,
            ) && *final(self) == *old(self),
            !old(self).registry().contains_feed(stock_code@) ==> {
                &&& r matches Ok(frame) && frame@ == subscribe_frame(
                    old(self).registry().next_wire_id() as nat,
                    stock_code@,
                )
                &&& SubscriptionRegistry::alloc_effect(
                    old(self).registry(),
                    final(self).registry(),
                    stock_code@,
                )
            },
    {
        let code_copy = stock_code.clone();
        match self.registry.allocate(stock_code) {
            Err(e) => Err(e),
            Ok(id) => Ok(build_subscribe(id, code_copy.as_str())),
        }
    }

    /// Removes `stock_code` and returns the UNSUBSCRIBE frame for the wire
    /// ID it held; fails with `UnknownSubscription`, changing nothing, when
    /// the feed is not subscribed.
    pub fn unsubscribe(&mut self, stock_code: String) -> (r: Result<String, StreamError>)
        requires
            old(self).wf(),
        ensures
            final(self).wf(),
            Self::same_credentials(*old(self), *final(self)),
            !old(self).registry().contains_feed(stock_code@) ==> r == Err::<String, StreamError>(
                StreamError::UnknownSubscription,
            ) && *final(self) == *old(self),
            old(self).registry().contains_feed(stock_code@) ==> {
                &&& r matches Ok(frame) && frame@ == unsubscribe_frame(
                    old(self).registry().id_of(stock_code@) as nat,
                )
                &&& SubscriptionRegistry::release_effect(
                    old(self).registry(),
                    final(self).registry(),
                    stock_code@,
                )
            },
    {
        match self.registry.release(&stock_code) {
            Err(e) => Err(e),
            Ok(id) => Ok(build_unsubscribe(id)),
        }
    }
}

} // verus!
