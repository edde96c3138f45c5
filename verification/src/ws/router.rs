//! Sorting inbound messages: by the tag of their channel first, then to the
//! subscribers of the feed they belong to.

use crate::address::{opt_text, opt_text_eq, text_eq};
use crate::ws::ws_manager::{Feed, Message, Subscription};
use vstd::prelude::*;

verus! {

/// The channels a frame can arrive on.
#[derive(Debug, Clone, Copy, PartialEq, Eq, Structural)]
pub enum Channel {
    NoData,
    HyperliquidError,
    AllMids,
    Trades,
    L2Book,
    Bbo,
    User,
    UserFills,
    Candle,
    ClearinghouseState,
    SubscriptionResponse,
    OrderUpdates,
    UserFundings,
    UserNonFundingLedgerUpdates,
    Notification,
    WebData2,
    ActiveAssetCtx,
    Pong,
    Post,
    /// A channel this client does not know.
    Unknown,
}

/// The channel that a frame's tag names. A tag that names none of the known
/// channels stands for `Unknown`: such a frame is set aside, and the session
/// goes on.
pub open spec fn channel_of(tag: Seq<char>) -> Channel {
    if tag == "noData"@ {
        Channel::NoData
    } else if tag == "hyperliquidError"@ {
        Channel::HyperliquidError
    } else if tag == "allMids"@ {
        Channel::AllMids
    } else if tag == "trades"@ {
        Channel::Trades
    } else if tag == "l2Book"@ {
        Channel::L2Book
    } else if tag == "bbo"@ {
        Channel::Bbo
    } else if tag == "user"@ {
        Channel::User
    } else if tag == "userFills"@ {
        Channel::UserFills
    } else if tag == "candle"@ {
        Channel::Candle
    } else if tag == "clearinghouseState"@ {
        Channel::ClearinghouseState
    } else if tag == "subscriptionResponse"@ {
        Channel::SubscriptionResponse
    } else if tag == "orderUpdates"@ {
        Channel::OrderUpdates
    } else if tag == "userFundings"@ {
        Channel::UserFundings
    } else if tag == "userNonFundingLedgerUpdates"@ {
        Channel::UserNonFundingLedgerUpdates
    } else if tag == "notification"@ {
        Channel::Notification
    } else if tag == "webData2"@ {
        Channel::WebData2
    } else if tag == "activeAssetCtx"@ {
        Channel::ActiveAssetCtx
    } else if tag == "pong"@ {
        Channel::Pong
    } else if tag == "post"@ {
        Channel::Post
    } else {
        Channel::Unknown
    }
}

/// Reads the channel off a frame's tag.
pub fn classify(tag: &str) -> (channel: Channel)
    ensures
        channel == channel_of(tag@),
{
    if text_eq(tag, "noData") {
        Channel::NoData
    } else if text_eq(tag, "hyperliquidError") {
        Channel::HyperliquidError
    } else if text_eq(tag, "allMids") {
        Channel::AllMids
    } else if text_eq(tag, "trades") {
        Channel::Trades
    } else if text_eq(tag, "l2Book") {
        Channel::L2Book
    } else if text_eq(tag, "bbo") {
        Channel::Bbo
    } else if text_eq(tag, "user") {
        Channel::User
    } else if text_eq(tag, "userFills") {
        Channel::UserFills
    } else if text_eq(tag, "candle") {
        Channel::Candle
    } else if text_eq(tag, "clearinghouseState") {
        Channel::ClearinghouseState
    } else if text_eq(tag, "subscriptionResponse") {
        Channel::SubscriptionResponse
    } else if text_eq(tag, "orderUpdates") {
        Channel::OrderUpdates
    } else if text_eq(tag, "userFundings") {
        Channel::UserFundings
    } else if text_eq(tag, "userNonFundingLedgerUpdates") {
        Channel::UserNonFundingLedgerUpdates
    } else if text_eq(tag, "notification") {
        Channel::Notification
    } else if text_eq(tag, "webData2") {
        Channel::WebData2
    } else if text_eq(tag, "activeAssetCtx") {
        Channel::ActiveAssetCtx
    } else if text_eq(tag, "pong") {
        Channel::Pong
    } else if text_eq(tag, "post") {
        Channel::Post
    } else {
        Channel::Unknown
    }
}

/// The channel a message arrived on.
pub open spec fn channel_of_message(message: Message) -> Channel {
    match message {
        Message::NoData => Channel::NoData,
        Message::HyperliquidError(_) => Channel::HyperliquidError,
        Message::AllMids(_) => Channel::AllMids,
        Message::Trades(_) => Channel::Trades,
        Message::L2Book(_) => Channel::L2Book,
        Message::Bbo(_) => Channel::Bbo,
        Message::User(_) => Channel::User,
        Message::UserFills(_) => Channel::UserFills,
        Message::Candle(_) => Channel::Candle,
        Message::ClearinghouseState(_) => Channel::ClearinghouseState,
        Message::SubscriptionResponse => Channel::SubscriptionResponse,
        Message::OrderUpdates(_) => Channel::OrderUpdates,
        Message::UserFundings(_) => Channel::UserFundings,
        Message::UserNonFundingLedgerUpdates(_) => Channel::UserNonFundingLedgerUpdates,
        Message::Notification(_) => Channel::Notification,
        Message::WebData2(_) => Channel::WebData2,
        Message::ActiveAssetCtx(_) => Channel::ActiveAssetCtx,
        Message::Pong => Channel::Pong,
        Message::Post(_) => Channel::Post,
        Message::Unknown(_) => Channel::Unknown,
    }
}

/// Whether `message` belongs to `feed`, so that the subscribers of `feed`
/// receive it. A message belongs to the feed of its own kind whose key
/// fields it carries; the kinds whose frames carry no key (user events,
/// order updates, notifications, all-mids) belong to every feed of their
/// kind. A batch of trades belongs to the coin of its first trade, an empty
/// batch to no feed.
pub open spec fn carries(message: Message, feed: Feed) -> bool {
    match (message, feed) {
        (Message::AllMids(_), Feed::AllMids) => true,
        (Message::Trades(m), Feed::Trades { coin }) => opt_text(m.coin) == Some(coin),
        (Message::L2Book(m), Feed::L2Book { coin }) => m.coin@ == coin,
        (Message::Bbo(m), Feed::Bbo { coin }) => m.coin@ == coin,
        (Message::User(_), Feed::UserEvents { user }) => true,
        (Message::UserFills(m), Feed::UserFills { user }) => m.user@ == user,
        (Message::Candle(m), Feed::Candle { coin, interval }) => m.coin@ == coin && m.interval@
            == interval,
        (Message::ClearinghouseState(m), Feed::ClearinghouseState { user, dex }) => m.user@
            == user && opt_text(m.dex) == dex,
        (Message::OrderUpdates(_), Feed::OrderUpdates { user }) => true,
        (Message::UserFundings(m), Feed::UserFundings { user }) => m.user@ == user,
        (
            Message::UserNonFundingLedgerUpdates(m),
            Feed::UserNonFundingLedgerUpdates { user },
        ) => m.user@ == user,
        (Message::Notification(_), Feed::Notification { user }) => true,
        (Message::WebData2(m), Feed::WebData2 { user, dex }) => m.user@ == user && opt_text(
            m.dex,
        ) == dex,
        (Message::ActiveAssetCtx(m), Feed::ActiveAssetCtx { coin }) => m.coin@ == coin,
        _ => false,
    }
}

/// Whether `message` belongs to the feed that `spec` names.
pub fn belongs_to(message: &Message, spec: &Subscription) -> (belongs: bool)
    ensures
        belongs == carries(*message, spec@),
{
    match (message, spec) {
        (Message::AllMids(_), Subscription::AllMids) => true,
        (Message::Trades(m), Subscription::Trades { coin }) => match &m.coin {
            Some(c) => text_eq(c.as_str(), coin.as_str()),
            None => false,
        },
        (Message::L2Book(m), Subscription::L2Book { coin }) => text_eq(
            m.coin.as_str(),
            coin.as_str(),
        ),
        (Message::Bbo(m), Subscription::Bbo { coin }) => text_eq(m.coin.as_str(), coin.as_str()),
        (Message::User(_), Subscription::UserEvents { user: _ }) => true,
        (Message::UserFills(m), Subscription::UserFills { user }) => m.user.same(user),
        (Message::Candle(m), Subscription::Candle { coin, interval }) => text_eq(
            m.coin.as_str(),
            coin.as_str(),
        ) && text_eq(m.interval.as_str(), interval.as_str()),
        (Message::ClearinghouseState(m), Subscription::ClearinghouseState { user, dex }) => {
            m.user.same(user) && opt_text_eq(&m.dex, dex)
        },
        (Message::OrderUpdates(_), Subscription::OrderUpdates { user: _ }) => true,
        (Message::UserFundings(m), Subscription::UserFundings { user }) => m.user.same(user),
        (
            Message::UserNonFundingLedgerUpdates(m),
            Subscription::UserNonFundingLedgerUpdates { user },
        ) => m.user.same(user),
        (Message::Notification(_), Subscription::Notification { user: _ }) => true,
        (Message::WebData2(m), Subscription::WebData2 { user, dex }) => m.user.same(user)
            && opt_text_eq(&m.dex, dex),
        (Message::ActiveAssetCtx(m), Subscription::ActiveAssetCtx { coin }) => text_eq(
            m.coin.as_str(),
            coin.as_str(),
        ),
        _ => false,
    }
}

/// One consumer of a feed.
#[derive(Debug)]
pub struct Subscriber {
    /// The id the consumer is known under.
    pub id: u64,
    /// The feed it consumes.
    pub feed: Subscription,
}

/// A consumer as the contracts see it: its id and the identity of its feed.
pub struct Listener {
    pub id: u64,
    pub feed: Feed,
}

impl View for Subscriber {
    type V = Listener;

    open spec fn view(&self) -> Listener {
        Listener { id: self.id, feed: self.feed@ }
    }
}

/// Where an inbound message goes.
#[derive(Debug, Clone, PartialEq, Eq)]
pub enum Route {
    /// To the correlator: the answer to the request with this id.
    Response(u64),
    /// To the consumers with these ids, in the order in which they
    /// subscribed.
    Deliver(Vec<u64>),
    /// To the heartbeat: a pong.
    Liveness,
    /// Nowhere: the exchange confirms a subscription.
    Acknowledged,
    /// To the log: the exchange reports an error that belongs to no request.
    Fault,
    /// Nowhere: an empty frame, or one on a channel this client does not
    /// know.
    Dropped,
}

/// The consumers as the contracts see them.
pub open spec fn listeners_of(subscribers: Seq<Subscriber>) -> Seq<Listener> {
    subscribers.map_values(|s: Subscriber| s@)
}

/// The ids of the consumers that receive `message`, in the order in which
/// they subscribed.
pub open spec fn receivers(listeners: Seq<Listener>, message: Message) -> Seq<u64> {
    listeners.filter(|l: Listener| carries(message, l.feed)).map_values(|l: Listener| l.id)
}

/// Whether some consumer listens to `feed`.
pub open spec fn listened(listeners: Seq<Listener>, feed: Feed) -> bool {
    exists|i: int| 0 <= i < listeners.len() && (#[trigger] listeners[i]).feed == feed
}

/// Whether a consumer is known under `id`.
pub open spec fn has_listener(listeners: Seq<Listener>, id: u64) -> bool {
    exists|i: int| 0 <= i < listeners.len() && (#[trigger] listeners[i]).id == id
}

/// Position of the consumer known under `id`.
pub open spec fn index_of_listener(listeners: Seq<Listener>, id: u64) -> int {
    choose|i: int| 0 <= i < listeners.len() && (#[trigger] listeners[i]).id == id
}

/// Where the channels other than the data channels lead.
pub open spec fn route_of_control(message: Message) -> Route {
    match message {
        Message::Post(response) => Route::Response(response.data.id),
        Message::Pong => Route::Liveness,
        Message::SubscriptionResponse => Route::Acknowledged,
        Message::HyperliquidError(_) => Route::Fault,
        _ => Route::Dropped,
    }
}

/// Whether the message arrived on a data channel.
pub open spec fn is_data(message: Message) -> bool {
    match message {
        Message::Post(_) => false,
        Message::Pong => false,
        Message::SubscriptionResponse => false,
        Message::HyperliquidError(_) => false,
        Message::NoData => false,
        Message::Unknown(_) => false,
        _ => true,
    }
}

/// The registry of consumers.
#[derive(Debug)]
pub struct MessageRouter {
    subscribers: Vec<Subscriber>,
    next_subscriber: u64,
}

impl MessageRouter {
    /// The consumers, in the order in which they subscribed.
    pub closed spec fn listeners(&self) -> Seq<Listener> {
        listeners_of(self.subscribers@)
    }

    /// The id that the next consumer gets.
    pub closed spec fn next_subscriber(&self) -> u64 {
        self.next_subscriber
    }

    /// The consumers carry ids in increasing order, all handed out before.
    pub open spec fn wf(&self) -> bool {
        &&& forall|i: int|
            0 <= i < self.listeners().len() ==> (#[trigger] self.listeners()[i]).id
                < self.next_subscriber()
        &&& forall|i: int, j: int|
            0 <= i < j < self.listeners().len() ==> (#[trigger] self.listeners()[i]).id < (
            #[trigger] self.listeners()[j]).id
    }

    /// A router without consumers, whose first consumer id is 0.
    pub fn new() -> (router: MessageRouter)
        ensures
            router.wf(),
            router.listeners() == Seq::<Listener>::empty(),
            router.next_subscriber() == 0,
    {
        let router = MessageRouter { subscribers: Vec::new(), next_subscriber: 0 };
        assert(router.listeners() =~= Seq::<Listener>::empty());
        router
    }

    /// Number of consumers.
    pub fn subscriber_count(&self) -> (count: usize)
        ensures
            count == self.listeners().len(),
    {
        self.subscribers.len()
    }

    /// Whether some consumer listens to the feed that `spec` names.
    pub fn has_feed(&self, spec: &Subscription) -> (found: bool)
        ensures
            found == listened(self.listeners(), spec@),
    {
        let mut i: usize = 0;
        while i < self.subscribers.len()
            invariant
                i <= self.subscribers.len(),
                forall|k: int| 0 <= k < i ==> (#[trigger] self.listeners()[k]).feed != spec@,
            decreases self.subscribers.len() - i,
        {
            if self.subscribers[i].feed.same(spec) {
                assert(self.listeners()[i as int].feed == spec@);
                return true;
            }
            i += 1;
        }
        false
    }

    /// Takes a new consumer of the feed that `spec` names into the registry
    /// and hands back its id, which no consumer had before. `None` is
    /// returned, and nothing changes, once every id has been handed out.
    pub fn add(&mut self, spec: &Subscription) -> (id: Option<u64>)
        requires
            old(self).wf(),
        ensures
            final(self).wf(),
            match id {
                Some(id) => {
                    &&& old(self).next_subscriber() < u64::MAX
                    &&& id == old(self).next_subscriber()
                    &&& final(self).next_subscriber() == id + 1
                    &&& final(self).listeners() == old(self).listeners().push(
                        Listener { id, feed: spec@ },
                    )
                    &&& !has_listener(old(self).listeners(), id)
                },
                None => old(self).next_subscriber() == u64::MAX && *final(self) == *old(self),
            },
    {
        if self.next_subscriber == u64::MAX {
            return None;
        }
        let id: u64 = self.next_subscriber;
        self.subscribers.push(Subscriber { id, feed: spec.clone() });
        self.next_subscriber = id + 1;
        proof {
            let before = old(self).listeners();
            let after = self.listeners();
            assert(after =~= before.push(Listener { id, feed: spec@ }));
            assert forall|i: int| 0 <= i < after.len() implies (#[trigger] after[i]).id
                < self.next_subscriber() by {
                if i < before.len() {
                    assert(after[i] == before[i]);
                }
            }
            assert forall|i: int, j: int| 0 <= i < j < after.len() implies (
            #[trigger] after[i]).id < (#[trigger] after[j]).id by {
                assert(after[i] == before[i]);
                if j < before.len() {
                    assert(after[j] == before[j]);
                }
            }
            assert(!has_listener(before, id)) by {
                if has_listener(before, id) {
                    let w = index_of_listener(before, id);
                    assert(before[w].id < old(self).next_subscriber());
                }
            }
        }
        Some(id)
    }

    fn position(&self, id: u64) -> (at: Option<usize>)
        ensures
            match at {
                Some(i) => i < self.listeners().len() && self.listeners()[i as int].id == id,
                None => !has_listener(self.listeners(), id),
            },
    {
        let mut i: usize = 0;
        while i < self.subscribers.len()
            invariant
                i <= self.subscribers.len(),
                forall|k: int| 0 <= k < i ==> (#[trigger] self.listeners()[k]).id != id,
            decreases self.subscribers.len() - i,
        {
            if self.subscribers[i].id == id {
                assert(self.listeners()[i as int].id == id);
                return Some(i);
            }
            i += 1;
        }
        None
    }

    /// Takes the consumer known under `id` out of the registry and hands
    /// back the feed it listened to. If no consumer is known under that id,
    /// `None` is returned and nothing changes. The other consumers stay as
    /// they are.
    pub fn remove(&mut self, id: u64) -> (feed: Option<Subscription>)
        requires
            old(self).wf(),
        ensures
            final(self).wf(),
            final(self).next_subscriber() == old(self).next_subscriber(),
            feed.is_some() == has_listener(old(self).listeners(), id),
            !has_listener(final(self).listeners(), id),
            match feed {
                Some(feed) => {
                    &&& feed@ == old(self).listeners()[index_of_listener(
                        old(self).listeners(),
                        id,
                    )].feed
                    &&& final(self).listeners() == old(self).listeners().remove(
                        index_of_listener(old(self).listeners(), id),
                    )
                },
                None => *final(self) == *old(self),
            },
    {
        let i: usize = match self.position(id) {
            Some(i) => i,
            None => {
                return None;
            },
        };
        let ghost before = self.listeners();
        assert(before[i as int].id == id);
        let gone: Subscriber = self.subscribers.remove(i);
        proof {
            let at = index_of_listener(before, id);
            assert(at == i as int) by {
                if at < i {
                    assert(before[at].id < before[i as int].id);
                } else if at > i {
                    assert(before[i as int].id < before[at].id);
                }
            }
            let after = self.listeners();
            assert(after =~= before.remove(i as int));
            assert forall|k: int| 0 <= k < after.len() implies (#[trigger] after[k]).id != id
                && after[k].id < self.next_subscriber() by {
                let k0 = if k < i { k } else { k + 1 };
                assert(after[k] == before[k0]);
                if k0 < i {
                    assert(before[k0].id < before[i as int].id);
                } else {
                    assert(before[i as int].id < before[k0].id);
                }
            }
            assert forall|a: int, b: int| 0 <= a < b < after.len() implies (
            #[trigger] after[a]).id < (#[trigger] after[b]).id by {
                let a0 = if a < i { a } else { a + 1 };
                let b0 = if b < i { b } else { b + 1 };
                assert(after[a] == before[a0]);
                assert(after[b] == before[b0]);
                assert(before[a0].id < before[b0].id);
            }
        }
        Some(gone.feed)
    }

    /// Says where `message` goes. A message on a data channel goes to every
    /// consumer of the feed it belongs to, and to no other; the answer to a
    /// posted request goes to the correlator; a pong goes to the heartbeat;
    /// everything else is set aside.
    pub fn dispatch(&self, message: &Message) -> (route: Route)
        ensures
            is_data(*message) ==> (route matches Route::Deliver(ids) && ids@ == receivers(
                self.listeners(),
                *message,
            )),
            !is_data(*message) ==> route == route_of_control(*message),
    {
        match message {
            Message::Post(response) => {
                return Route::Response(response.data.id);
            },
            Message::Pong => {
                return Route::Liveness;
            },
            Message::SubscriptionResponse => {
                return Route::Acknowledged;
            },
            Message::HyperliquidError(_) => {
                return Route::Fault;
            },
            Message::NoData => {
                return Route::Dropped;
            },
            Message::Unknown(_) => {
                return Route::Dropped;
            },
            _ => {},
        }
        let ghost all = self.listeners();
        let ghost wanted = |l: Listener| carries(*message, l.feed);
        let mut ids: Vec<u64> = Vec::new();
        let mut i: usize = 0;
        proof {
            reveal(Seq::filter);
            assert(all.take(0) =~= Seq::<Listener>::empty());
            assert(ids@ =~= all.take(0).filter(wanted).map_values(|l: Listener| l.id));
        }
        while i < self.subscribers.len()
            invariant
                i <= self.subscribers.len(),
                all == self.listeners(),
                wanted == |l: Listener| carries(*message, l.feed),
                ids@ == all.take(i as int).filter(wanted).map_values(|l: Listener| l.id),
            decreases self.subscribers.len() - i,
        {
            proof {
                reveal(Seq::filter);
                let next = all.take(i + 1);
                assert(next.drop_last() =~= all.take(i as int));
                assert(next.last() == self.subscribers@[i as int]@);
            }
            if belongs_to(message, &self.subscribers[i].feed) {
                ids.push(self.subscribers[i].id);
                assert(ids@ =~= all.take(i + 1).filter(wanted).map_values(|l: Listener| l.id));
            }
            i += 1;
        }
        assert(all.take(i as int) =~= all);
        Route::Deliver(ids)
    }
}

} // verus!
