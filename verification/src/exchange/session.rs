//! The session: one signing identity, one connection, and the requests and
//! subscriptions that run over it.
//!
//! The session decides and keeps the books; it performs no input or output.
//! The embedding program reads the clock and the socket, reports what
//! happened through the methods below, and carries out what they hand back:
//! it sends the frames, wakes the callers whose requests have ended, and
//! passes messages on to the consumers named.

use crate::address::Address;
use crate::errors::{Error, RequestError, SigningError};
use crate::exchange::actions::Action;
use crate::exchange::builder::{SignedRequestBuilder, WireEnvelope};
use crate::exchange::exchange_responses::{
    accepted, decode_response, entries_of, status_of, OrderStatus,
};
use crate::helpers::{nonce_after, NonceClock};
use crate::signature::primitives::SigningIdentity;
use crate::signature::signer::{signed, ActionSigner, ChainContext};
use crate::ws::correlator::{
    has_id, ids_of, index_of_id, overdue, PendingRequest, RequestCorrelator,
};
use crate::ws::router::{
    has_listener, index_of_listener, listened, receivers, Listener, MessageRouter, Route,
};
use crate::ws::transport::{
    retry_delay, without, Backoff, Beat, ConnectionState, Heartbeat, WsTransport,
};
use crate::ws::ws_manager::{Feed, Message, Subscription};
use vstd::prelude::*;

verus! {

/// What a session is set up with.
#[derive(Debug, Clone, Copy, PartialEq, Eq)]
pub struct SessionConfig {
    /// The chain and contract that signatures are meant for.
    pub context: ChainContext,
    /// The vault or builder account on whose behalf actions are signed.
    pub vault_address: Option<Address>,
    /// How long a posted request may wait for its response, in
    /// milliseconds.
    pub request_timeout_ms: u64,
    /// Bounds of the wait between two attempts to connect.
    pub backoff: Backoff,
    /// When to ping, and how long to wait for the pong.
    pub heartbeat: Heartbeat,
}

/// A request that was taken into the books and is to be sent.
#[derive(Debug, Clone, PartialEq, Eq)]
pub struct Submission {
    /// The id under which the response will arrive.
    pub id: u64,
    /// What to send.
    pub request: WireEnvelope,
}

/// A consumer that was taken into the books.
#[derive(Debug, Clone, Copy, PartialEq, Eq)]
pub struct Subscribed {
    /// The id under which the consumer's messages will be handed out.
    pub subscriber: u64,
    /// Whether a subscribe frame is to be sent now.
    pub send_now: bool,
}

/// What an inbound message led to.
#[derive(Debug, PartialEq, Eq)]
pub enum Handled {
    /// The request with this id has ended, with this outcome.
    Resolved { id: u64, outcome: Result<Vec<OrderStatus>, Error> },
    /// The message is for the consumers with these ids.
    Deliver(Vec<u64>),
    /// A pong: the connection is alive.
    Alive,
    /// The exchange reports an error that belongs to no request.
    Fault,
    /// Nothing: the message answers no request in flight, or says nothing.
    Discarded,
}

/// What a look at the clock led to.
#[derive(Debug, Clone, PartialEq, Eq)]
pub struct Tick {
    /// The requests that have timed out: each ends with `Timeout`.
    pub timed_out: Vec<u64>,
    /// What the heartbeat asks for.
    pub beat: Beat,
    /// The requests that were in flight when the heartbeat gave the
    /// connection up: each ends with `ConnectionLost`.
    pub lost: Vec<u64>,
}

/// What a shutdown led to.
#[derive(Debug, Clone, PartialEq, Eq)]
pub struct Shutdown {
    /// Whether a socket was open or being opened, which is now to be
    /// closed.
    pub had_socket: bool,
    /// The requests that were in flight: each ends with `ConnectionLost`.
    pub failed: Vec<u64>,
}

/// The session.
pub struct ExchangeSession {
    identity: SigningIdentity,
    signer: ActionSigner,
    builder: SignedRequestBuilder,
    clock: NonceClock,
    transport: WsTransport,
    correlator: RequestCorrelator,
    router: MessageRouter,
}

impl ExchangeSession {
    /// The key that actions are signed with.
    pub closed spec fn key(&self) -> Seq<u8> {
        self.identity.key()
    }

    /// The signer that actions are signed by.
    pub closed spec fn signer(&self) -> ActionSigner {
        self.signer
    }

    /// The builder that puts signed actions into their envelope.
    pub closed spec fn builder(&self) -> SignedRequestBuilder {
        self.builder
    }

    /// The clock that nonces are taken from.
    pub closed spec fn clock(&self) -> NonceClock {
        self.clock
    }

    /// The connection and the subscriptions in force.
    pub closed spec fn transport(&self) -> WsTransport {
        self.transport
    }

    /// The requests in flight.
    pub closed spec fn correlator(&self) -> RequestCorrelator {
        self.correlator
    }

    /// The consumers.
    pub closed spec fn router(&self) -> MessageRouter {
        self.router
    }

    /// Where the connection stands.
    pub open spec fn state(&self) -> ConnectionState {
        self.transport().state()
    }

    /// The parts are sound; a feed is subscribed to exactly while some
    /// consumer listens to it; and requests are in flight only while the
    /// socket is open.
    pub open spec fn wf(&self) -> bool {
        &&& self.transport().wf()
        &&& self.correlator().wf()
        &&& self.router().wf()
        &&& forall|feed: Feed| #[trigger]
            self.transport().feeds().contains(feed) <==> listened(self.router().listeners(), feed)
        &&& self.state() != ConnectionState::Connected ==> self.correlator().pending().len() == 0
    }

    /// Whether `other` is set up as `self` is: the same key, signer and
    /// builder, the same bounds on waits and the same timeouts.
    pub open spec fn same_setup(&self, other: &ExchangeSession) -> bool {
        &&& self.key() == other.key()
        &&& self.signer() == other.signer()
        &&& self.builder() == other.builder()
        &&& self.transport().backoff() == other.transport().backoff()
        &&& self.transport().heartbeat() == other.transport().heartbeat()
        &&& self.correlator().timeout_ms() == other.correlator().timeout_ms()
    }

    /// Whether `other` is `self` in every respect.
    pub open spec fn unchanged(&self, other: &ExchangeSession) -> bool {
        &&& self.same_setup(other)
        &&& self.clock() == other.clock()
        &&& self.transport() == other.transport()
        &&& self.correlator() == other.correlator()
        &&& self.router() == other.router()
    }

    /// A session for `identity`: disconnected, with no request in flight
    /// and no consumer.
    pub fn new(identity: SigningIdentity, config: SessionConfig) -> (session: ExchangeSession)
        ensures
            session.wf(),
            session.key() == identity.key(),
            session.signer().context == config.context,
            session.signer().proxy == config.vault_address,
            session.builder().vault_address == config.vault_address,
            session.clock().last_issued() == 0,
            session.state() == ConnectionState::Disconnected,
            session.transport().feeds() == Seq::<Feed>::empty(),
            session.transport().backoff() == config.backoff,
            session.transport().heartbeat() == config.heartbeat,
            session.correlator().pending() == Seq::<PendingRequest>::empty(),
            session.correlator().next_id() == 0,
            session.correlator().timeout_ms() == config.request_timeout_ms,
            session.router().listeners() == Seq::<Listener>::empty(),
            session.router().next_subscriber() == 0,
    {
        let session = ExchangeSession {
            identity,
            signer: ActionSigner { context: config.context, proxy: config.vault_address },
            builder: SignedRequestBuilder::new(config.vault_address),
            clock: NonceClock::new(),
            transport: WsTransport::new(config.backoff, config.heartbeat),
            correlator: RequestCorrelator::new(config.request_timeout_ms),
            router: MessageRouter::new(),
        };
        proof {
            assert forall|feed: Feed| #[trigger]
                session.transport().feeds().contains(feed) <==> listened(
                    session.router().listeners(),
                    feed,
                ) by {}
        }
        session
    }

    /// Where the connection stands.
    pub fn current_state(&self) -> (state: ConnectionState)
        ensures
            state == self.state(),
    {
        self.transport.current_state()
    }

    /// The address of the account that signs.
    pub fn address(&self) -> (address: Address)
        ensures
            address@ == self.identity_account(),
    {
        self.identity.address()
    }

    /// The account that signs.
    pub closed spec fn identity_account(&self) -> Seq<u8> {
        self.identity.account()
    }

    /// Number of requests in flight.
    pub fn pending_count(&self) -> (count: usize)
        ensures
            count == self.correlator().pending().len(),
    {
        self.correlator.pending_count()
    }

    /// Whether the request with the given id is in flight.
    pub fn is_pending(&self, id: u64) -> (found: bool)
        ensures
            found == has_id(self.correlator().pending(), id),
    {
        self.correlator.is_pending(id)
    }

    /// Asks for a connection: see [`WsTransport::connect`]. The result says
    /// whether the caller is to open the socket now.
    pub fn connect(&mut self) -> (outcome: Result<bool, Error>)
        requires
            old(self).wf(),
        ensures
            final(self).wf(),
            final(self).same_setup(old(self)),
            final(self).clock() == old(self).clock(),
            final(self).correlator() == old(self).correlator(),
            final(self).router() == old(self).router(),
            final(self).transport().same_but_state(&old(self).transport()),
            match old(self).state() {
                ConnectionState::Closed => outcome == Err::<bool, Error>(Error::SessionClosed)
                    && final(self).state() == ConnectionState::Closed,
                ConnectionState::Disconnected => outcome == Ok::<bool, Error>(true)
                    && final(self).state() == ConnectionState::Connecting,
                _ => outcome == Ok::<bool, Error>(false) && final(self).state() == old(self).state(),
            },
    {
        self.transport.connect()
    }

    /// Reports that an attempt to open the socket has failed, and hands
    /// back the time to wait before the next attempt: see
    /// [`WsTransport::open_failed`].
    pub fn open_failed(&mut self) -> (wait_ms: Option<u64>)
        requires
            old(self).wf(),
        ensures
            final(self).wf(),
            final(self).same_setup(old(self)),
            final(self).clock() == old(self).clock(),
            final(self).correlator() == old(self).correlator(),
            final(self).router() == old(self).router(),
            final(self).state() == old(self).state(),
            final(self).transport().feeds() == old(self).transport().feeds(),
            final(self).transport().last_ping_ms() == old(self).transport().last_ping_ms(),
            final(self).transport().ping_outstanding() == old(self).transport().ping_outstanding(),
            old(self).state() == ConnectionState::Connecting ==> wait_ms == Some(
                retry_delay(
                    old(self).transport().backoff(),
                    old(self).transport().failed_opens(),
                ) as u64,
            ) && final(self).transport().failed_opens() == if old(self).transport().failed_opens() < u32::MAX {
                old(self).transport().failed_opens() + 1
            } else {
                old(self).transport().failed_opens()
            },
            old(self).state() != ConnectionState::Connecting ==> wait_ms.is_none() && final(self).transport().failed_opens() == old(self).transport().failed_opens(),
    {
        self.transport.open_failed()
    }

    /// Reports that the socket is open, and hands back the feeds to ask
    /// for again: every feed subscribed to, once, in the order in which the
    /// feeds were first asked for. Out of place, that is in any state but
    /// `Connecting`, the report changes nothing and yields no feed.
    pub fn opened(&mut self, now_ms: u64) -> (replay: Vec<Subscription>)
        requires
            old(self).wf(),
        ensures
            final(self).wf(),
            final(self).same_setup(old(self)),
            final(self).clock() == old(self).clock(),
            final(self).correlator() == old(self).correlator(),
            final(self).router() == old(self).router(),
            final(self).transport().feeds() == old(self).transport().feeds(),
            old(self).state() == ConnectionState::Connecting ==> {
                &&& final(self).state() == ConnectionState::Connected
                &&& final(self).transport().failed_opens() == 0
                &&& final(self).transport().last_ping_ms() == now_ms
                &&& !final(self).transport().ping_outstanding()
                &&& crate::ws::transport::feeds_of(replay@) == old(self).transport().feeds()
                &&& replay@.len() == old(self).transport().feeds().len()
                &&& forall|i: int|
                    0 <= i < replay@.len() ==> (#[trigger] replay@[i])@ == old(self).transport().feeds()[i]
            },
            old(self).state() != ConnectionState::Connecting ==> {
                &&& final(self).transport().unchanged(&old(self).transport())
                &&& replay@.len() == 0
            },
    {
        self.transport.opened(now_ms)
    }

    /// Reports that the connection was lost. Every request in flight ends
    /// with `ConnectionLost`: their ids are handed back, oldest first. The
    /// subscriptions stay, to be asked for again on the next connection.
    pub fn connection_lost(&mut self) -> (failed: Vec<u64>)
        requires
            old(self).wf(),
        ensures
            final(self).wf(),
            final(self).same_setup(old(self)),
            final(self).clock() == old(self).clock(),
            final(self).router() == old(self).router(),
            final(self).transport().feeds() == old(self).transport().feeds(),
            final(self).state() == match old(self).state() {
                ConnectionState::Closed => ConnectionState::Closed,
                _ => ConnectionState::Disconnected,
            },
            final(self).transport().failed_opens() == old(self).transport().failed_opens(),
            final(self).transport().last_ping_ms() == old(self).transport().last_ping_ms(),
            !final(self).transport().ping_outstanding() || final(self).transport().unchanged(
                &old(self).transport(),
            ),
            failed@ == ids_of(old(self).correlator().pending()),
            final(self).correlator().pending() == Seq::<PendingRequest>::empty(),
            final(self).correlator().next_id() == old(self).correlator().next_id(),
    {
        self.transport.lost();
        self.correlator.fail_all()
    }

    /// Takes a nonce, signs `action` under it and puts it into its
    /// envelope.
    fn seal(&mut self, action: Action, expires_after: Option<u64>, now_ms: u64) -> (outcome:
        Result<WireEnvelope, SigningError>)
        requires
            old(self).clock().last_issued() < u64::MAX,
        ensures
            final(self).same_setup(old(self)),
            final(self).transport() == old(self).transport(),
            final(self).correlator() == old(self).correlator(),
            final(self).router() == old(self).router(),
            final(self).clock().last_issued() == nonce_after(
                old(self).clock().last_issued() as int,
                now_ms as int,
            ),
            match outcome {
                Ok(envelope) => {
                    &&& envelope.action == action
                    &&& envelope.nonce == final(self).clock().last_issued()
                    &&& envelope.vault_address == old(self).builder().vault_address
                    &&& envelope.expires_after == expires_after
                    &&& signed(
                        old(self).signer()@,
                        action@,
                        envelope.nonce,
                        expires_after,
                        old(self).key(),
                    ) == Ok::<(Seq<u8>, Seq<u8>, u64), SigningError>(envelope.signature@)
                },
                Err(fault) => signed(
                    old(self).signer()@,
                    action@,
                    final(self).clock().last_issued(),
                    expires_after,
                    old(self).key(),
                ) == Err::<(Seq<u8>, Seq<u8>, u64), SigningError>(fault),
            },
    {
        let nonce: u64 = self.clock.next(now_ms);
        match self.signer.sign(&action, nonce, expires_after, &self.identity) {
            Ok(signature) => Ok(self.builder.build(action, nonce, signature, expires_after)),
            Err(fault) => Err(fault),
        }
    }

    /// Signs `action` for a caller that sends it over REST: the envelope is
    /// handed back, and no request is taken into the books. Fails with
    /// `SessionClosed` after a shutdown and with `NonceExhausted` when the
    /// clock has no nonce left, in both cases without changing anything;
    /// and with the signer's error, in which case the nonce is spent.
    pub fn sign_action(&mut self, action: Action, expires_after: Option<u64>, now_ms: u64) -> (outcome:
        Result<WireEnvelope, Error>)
        requires
            old(self).wf(),
        ensures
            final(self).wf(),
            final(self).same_setup(old(self)),
            final(self).transport() == old(self).transport(),
            final(self).correlator() == old(self).correlator(),
            final(self).router() == old(self).router(),
            old(self).state() == ConnectionState::Closed ==> outcome == Err::<
                WireEnvelope,
                Error,
            >(Error::SessionClosed) && final(self).clock() == old(self).clock(),
            old(self).state() != ConnectionState::Closed && old(self).clock().last_issued()
                == u64::MAX ==> outcome == Err::<WireEnvelope, Error>(Error::NonceExhausted)
                && final(self).clock() == old(self).clock(),
            old(self).state() != ConnectionState::Closed && old(self).clock().last_issued()
                < u64::MAX ==> {
                &&& final(self).clock().last_issued() == nonce_after(
                    old(self).clock().last_issued() as int,
                    now_ms as int,
                )
                &&& match outcome {
                    Ok(envelope) => {
                        &&& envelope.action == action
                        &&& envelope.nonce == final(self).clock().last_issued()
                        &&& envelope.vault_address == old(self).builder().vault_address
                        &&& envelope.expires_after == expires_after
                        &&& signed(
                            old(self).signer()@,
                            action@,
                            envelope.nonce,
                            expires_after,
                            old(self).key(),
                        ) == Ok::<(Seq<u8>, Seq<u8>, u64), SigningError>(envelope.signature@)
                    },
                    Err(e) => e matches Error::Signing(fault) && signed(
                        old(self).signer()@,
                        action@,
                        final(self).clock().last_issued(),
                        expires_after,
                        old(self).key(),
                    ) == Err::<(Seq<u8>, Seq<u8>, u64), SigningError>(fault),
                }
            },
    {
        if self.transport.is_closed() {
            return Err(Error::SessionClosed);
        }
        if self.clock.is_exhausted() {
            return Err(Error::NonceExhausted);
        }
        match self.seal(action, expires_after, now_ms) {
            Ok(envelope) => Ok(envelope),
            Err(fault) => Err(Error::Signing(fault)),
        }
    }

    /// Submits `action` over the socket: takes a nonce, signs the action,
    /// puts it into its envelope and takes the request into the books under
    /// a fresh id. The submission handed back is to be sent as a post frame;
    /// the request then ends through [`ExchangeSession::handle_message`],
    /// [`ExchangeSession::tick`], [`ExchangeSession::connection_lost`],
    /// [`ExchangeSession::cancel`] or [`ExchangeSession::close`].
    ///
    /// Fails, without changing anything, with `SessionClosed` after a
    /// shutdown, with `ConnectionLost` while the socket is not open, with
    /// `NonceExhausted` when the clock has no nonce left and with
    /// `IdsExhausted` when there is no request id left. Fails with the
    /// signer's error where the action cannot be signed: the nonce is then
    /// spent, and no request is taken into the books.
    pub fn submit_action(
        &mut self,
        action: Action,
        expires_after: Option<u64>,
        now_ms: u64,
    ) -> (outcome: Result<Submission, Error>)
        requires
            old(self).wf(),
        ensures
            final(self).wf(),
            final(self).same_setup(old(self)),
            final(self).transport() == old(self).transport(),
            final(self).router() == old(self).router(),
            outcome.is_err() ==> final(self).correlator() == old(self).correlator(),
            old(self).refusal() matches Some(e) ==> outcome == Err::<Submission, Error>(e)
                && final(self).clock() == old(self).clock(),
            old(self).refusal().is_none() ==> {
                &&& final(self).clock().last_issued() == nonce_after(
                    old(self).clock().last_issued() as int,
                    now_ms as int,
                )
                &&& match outcome {
                    Ok(submission) => {
                        &&& submission.id == old(self).correlator().next_id()
                        &&& submission.request.action == action
                        &&& submission.request.nonce == final(self).clock().last_issued()
                        &&& submission.request.vault_address == old(self).builder().vault_address
                        &&& submission.request.expires_after == expires_after
                        &&& signed(
                            old(self).signer()@,
                            action@,
                            submission.request.nonce,
                            expires_after,
                            old(self).key(),
                        ) == Ok::<(Seq<u8>, Seq<u8>, u64), SigningError>(
                            submission.request.signature@,
                        )
                        &&& final(self).correlator().pending() == old(self).correlator().pending().push(
                            PendingRequest { id: submission.id, issued_at: now_ms },
                        )
                        &&& final(self).correlator().next_id() == submission.id + 1
                        &&& !has_id(old(self).correlator().pending(), submission.id)
                    },
                    Err(e) => e matches Error::Signing(fault) && signed(
                        old(self).signer()@,
                        action@,
                        final(self).clock().last_issued(),
                        expires_after,
                        old(self).key(),
                    ) == Err::<(Seq<u8>, Seq<u8>, u64), SigningError>(fault),
                }
            },
    {
        if self.transport.is_closed() {
            return Err(Error::SessionClosed);
        }
        if !self.transport.is_connected() {
            return Err(Error::Request(RequestError::ConnectionLost));
        }
        if self.clock.is_exhausted() {
            return Err(Error::NonceExhausted);
        }
        if self.correlator.is_exhausted() {
            return Err(Error::IdsExhausted);
        }
        match self.seal(action, expires_after, now_ms) {
            Err(fault) => Err(Error::Signing(fault)),
            Ok(request) => {
                match self.correlator.register(now_ms) {
                    Some(id) => Ok(Submission { id, request }),
                    None => Err(Error::IdsExhausted),
                }
            },
        }
    }

    /// Why a submission is refused before anything is signed, if it is.
    pub open spec fn refusal(&self) -> Option<Error> {
        if self.state() == ConnectionState::Closed {
            Some(Error::SessionClosed)
        } else if self.state() != ConnectionState::Connected {
            Some(Error::Request(RequestError::ConnectionLost))
        } else if self.clock().last_issued() == u64::MAX {
            Some(Error::NonceExhausted)
        } else if self.correlator().next_id() == u64::MAX {
            Some(Error::IdsExhausted)
        } else {
            None
        }
    }

    /// Gives up the request with the given id on the caller's side: the
    /// request leaves the books, and a response that arrives later is
    /// discarded. Nothing is undone at the exchange. The result says
    /// whether the request was in flight.
    pub fn cancel(&mut self, id: u64) -> (was_pending: bool)
        requires
            old(self).wf(),
        ensures
            final(self).wf(),
            final(self).same_setup(old(self)),
            final(self).clock() == old(self).clock(),
            final(self).transport() == old(self).transport(),
            final(self).router() == old(self).router(),
            was_pending == has_id(old(self).correlator().pending(), id),
            !has_id(final(self).correlator().pending(), id),
            final(self).correlator().next_id() == old(self).correlator().next_id(),
            final(self).correlator().pending() == if was_pending {
                old(self).correlator().pending().remove(
                    index_of_id(old(self).correlator().pending(), id),
                )
            } else {
                old(self).correlator().pending()
            },
    {
        self.correlator.resolve(id).is_some()
    }

    /// Takes in a message from the exchange and says what it leads to.
    ///
    /// The answer to a request in flight ends that request, once, with what
    /// the answer says; an answer that matches no request in flight is
    /// discarded and touches no other request. A message on a data channel
    /// is for the consumers of its feed. A pong feeds the heartbeat.
    pub fn handle_message(&mut self, message: &Message) -> (handled: Handled)
        requires
            old(self).wf(),
        ensures
            final(self).wf(),
            final(self).same_setup(old(self)),
            final(self).clock() == old(self).clock(),
            final(self).router() == old(self).router(),
            final(self).state() == old(self).state(),
            final(self).transport().feeds() == old(self).transport().feeds(),
            final(self).transport().failed_opens() == old(self).transport().failed_opens(),
            final(self).transport().last_ping_ms() == old(self).transport().last_ping_ms(),
            final(self).correlator().next_id() == old(self).correlator().next_id(),
            match *message {
                Message::Post(response) => if has_id(
                    old(self).correlator().pending(),
                    response.data.id,
                ) {
                    &&& handled matches Handled::Resolved { id, outcome }
                    &&& id == response.data.id
                    &&& response_outcome(response, outcome)
                    &&& final(self).correlator().pending() == old(self).correlator().pending().remove(
                        index_of_id(old(self).correlator().pending(), response.data.id),
                    )
                    &&& final(self).transport() == old(self).transport()
                } else {
                    &&& handled == Handled::Discarded
                    &&& final(self).unchanged(old(self))
                },
                Message::Pong => {
                    &&& handled == Handled::Alive
                    &&& !final(self).transport().ping_outstanding()
                    &&& final(self).correlator() == old(self).correlator()
                },
                Message::HyperliquidError(_) => {
                    &&& handled == Handled::Fault
                    &&& final(self).unchanged(old(self))
                },
                Message::SubscriptionResponse => {
                    &&& handled == Handled::Discarded
                    &&& final(self).unchanged(old(self))
                },
                Message::NoData => {
                    &&& handled == Handled::Discarded
                    &&& final(self).unchanged(old(self))
                },
                Message::Unknown(_) => {
                    &&& handled == Handled::Discarded
                    &&& final(self).unchanged(old(self))
                },
                _ => {
                    &&& handled matches Handled::Deliver(ids)
                    &&& ids@ == receivers(old(self).router().listeners(), *message)
                    &&& final(self).unchanged(old(self))
                },
            },
    {
        match self.router.dispatch(message) {
            Route::Response(id) => {
                match self.correlator.resolve(id) {
                    None => Handled::Discarded,
                    Some(_) => {
                        match message {
                            Message::Post(response) => Handled::Resolved {
                                id,
                                outcome: decode_response(response),
                            },
                            _ => Handled::Discarded,
                        }
                    },
                }
            },
            Route::Deliver(ids) => Handled::Deliver(ids),
            Route::Liveness => {
                self.transport.pong();
                Handled::Alive
            },
            Route::Fault => Handled::Fault,
            Route::Acknowledged => Handled::Discarded,
            Route::Dropped => Handled::Discarded,
        }
    }

    /// Lets the session look at the clock. Every request that has waited
    /// for the timeout or longer ends with `Timeout`. Then the heartbeat has
    /// its say: where it gives the connection up, the session becomes
    /// `Disconnected` and every request still in flight ends with
    /// `ConnectionLost`.
    pub fn tick(&mut self, now_ms: u64) -> (tick: Tick)
        requires
            old(self).wf(),
        ensures
            final(self).wf(),
            final(self).same_setup(old(self)),
            final(self).clock() == old(self).clock(),
            final(self).router() == old(self).router(),
            final(self).transport().feeds() == old(self).transport().feeds(),
            final(self).correlator().next_id() == old(self).correlator().next_id(),
            tick.timed_out@ == ids_of(
                old(self).correlator().pending().filter(
                    |r: PendingRequest| overdue(r, now_ms, old(self).correlator().timeout_ms()),
                ),
            ),
            tick.beat == old(self).transport().beat_due(now_ms),
            final(self).transport().failed_opens() == old(self).transport().failed_opens(),
            match tick.beat {
                Beat::Idle => final(self).transport().unchanged(&old(self).transport()),
                Beat::SendPing => final(self).transport().ping_outstanding() && final(self).transport().last_ping_ms() == now_ms,
                Beat::Lost => !final(self).transport().ping_outstanding() && final(self).transport().last_ping_ms() == old(self).transport().last_ping_ms(),
            },
            tick.beat == Beat::Lost ==> {
                &&& final(self).state() == ConnectionState::Disconnected
                &&& tick.lost@ == ids_of(
                    old(self).correlator().pending().filter(
                        |r: PendingRequest|
                            !overdue(r, now_ms, old(self).correlator().timeout_ms()),
                    ),
                )
                &&& final(self).correlator().pending() == Seq::<PendingRequest>::empty()
            },
            tick.beat != Beat::Lost ==> {
                &&& final(self).state() == old(self).state()
                &&& tick.lost@ == Seq::<u64>::empty()
                &&& final(self).correlator().pending() == old(self).correlator().pending().filter(
                    |r: PendingRequest| !overdue(r, now_ms, old(self).correlator().timeout_ms()),
                )
            },
    {
        let timed_out: Vec<u64> = self.correlator.expire(now_ms);
        proof {
            if self.state() != ConnectionState::Connected {
                lemma_filter_of_empty(
                    old(self).correlator().pending(),
                    |r: PendingRequest| !overdue(r, now_ms, old(self).correlator().timeout_ms()),
                );
            }
        }
        let beat: Beat = self.transport.beat(now_ms);
        let lost: Vec<u64> = match beat {
            Beat::Lost => self.correlator.fail_all(),
            _ => Vec::new(),
        };
        Tick { timed_out, beat, lost }
    }

    /// Takes a new consumer of the feed that `spec` names into the books.
    /// The feed is subscribed to if it was not yet; a subscribe frame is to
    /// be sent now where the feed is new and the socket is open. Fails,
    /// without changing anything, with `SessionClosed` after a shutdown and
    /// with `IdsExhausted` when there is no subscriber id left.
    pub fn subscribe(&mut self, spec: &Subscription) -> (outcome: Result<Subscribed, Error>)
        requires
            old(self).wf(),
        ensures
            final(self).wf(),
            final(self).same_setup(old(self)),
            final(self).clock() == old(self).clock(),
            final(self).correlator() == old(self).correlator(),
            final(self).state() == old(self).state(),
            final(self).transport().same_timing(&old(self).transport()),
            match outcome {
                Ok(subscribed) => {
                    &&& old(self).state() != ConnectionState::Closed
                    &&& subscribed.subscriber == old(self).router().next_subscriber()
                    &&& final(self).router().next_subscriber() == subscribed.subscriber + 1
                    &&& !has_listener(old(self).router().listeners(), subscribed.subscriber)
                    &&& final(self).router().listeners() == old(self).router().listeners().push(
                        Listener { id: subscribed.subscriber, feed: spec@ },
                    )
                    &&& final(self).transport().feeds() == if old(self).transport().feeds().contains(spec@) {
                        old(self).transport().feeds()
                    } else {
                        old(self).transport().feeds().push(spec@)
                    }
                    &&& subscribed.send_now == (!old(self).transport().feeds().contains(spec@)
                        && old(self).state() == ConnectionState::Connected)
                },
                Err(e) => {
                    &&& final(self).unchanged(old(self))
                    &&& e == if old(self).state() == ConnectionState::Closed {
                        Error::SessionClosed
                    } else {
                        Error::IdsExhausted
                    }
                    &&& old(self).state() == ConnectionState::Closed || old(self).router().next_subscriber() == u64::MAX
                },
            },
    {
        if self.transport.is_closed() {
            return Err(Error::SessionClosed);
        }
        let subscriber: u64 = match self.router.add(spec) {
            Some(id) => id,
            None => {
                return Err(Error::IdsExhausted);
            },
        };
        let send_now: bool = match self.transport.subscribe(spec) {
            Ok(send_now) => send_now,
            Err(_) => false,
        };
        proof {
            let feeds0 = old(self).transport().feeds();
            let feeds1 = self.transport().feeds();
            let l0 = old(self).router().listeners();
            let l1 = self.router().listeners();
            assert forall|feed: Feed| #[trigger] feeds1.contains(feed) <==> listened(l1, feed) by {
                assert(feeds0.contains(feed) <==> listened(l0, feed));
                if listened(l1, feed) {
                    let i = choose|i: int| 0 <= i < l1.len() && (#[trigger] l1[i]).feed == feed;
                    if i < l0.len() {
                        assert(l0[i].feed == feed);
                        assert(feeds0.contains(feed));
                        let k = choose|k: int| 0 <= k < feeds0.len() && feeds0[k] == feed;
                        assert(feeds1[k] == feed);
                    } else {
                        assert(feed == spec@);
                        if feeds0.contains(spec@) {
                        } else {
                            assert(feeds1[feeds0.len() as int] == feed);
                        }
                    }
                }
                if feeds1.contains(feed) {
                    let k = choose|k: int| 0 <= k < feeds1.len() && feeds1[k] == feed;
                    if k < feeds0.len() {
                        assert(feeds0[k] == feed);
                        assert(feeds0.contains(feed));
                        let i = choose|i: int| 0 <= i < l0.len() && (#[trigger] l0[i]).feed
                            == feed;
                        assert(l1[i].feed == feed);
                    } else {
                        assert(feed == spec@);
                        assert(l1[l0.len() as int].feed == feed);
                    }
                }
            }
        }
        Ok(Subscribed { subscriber, send_now })
    }

    /// Takes the consumer known under `subscriber` out of the books and
    /// hands back its feed where that feed has no consumer left: the feed
    /// is then given up, and an unsubscribe frame for it is to be sent if
    /// the socket is open. Removing a consumer that is not known changes
    /// nothing. Fails, without changing anything, with `SessionClosed`
    /// after a shutdown.
    pub fn unsubscribe(&mut self, subscriber: u64) -> (outcome: Result<Option<Subscription>, Error>)
        requires
            old(self).wf(),
        ensures
            final(self).wf(),
            final(self).same_setup(old(self)),
            final(self).clock() == old(self).clock(),
            final(self).correlator() == old(self).correlator(),
            final(self).state() == old(self).state(),
            final(self).transport().same_timing(&old(self).transport()),
            final(self).router().next_subscriber() == old(self).router().next_subscriber(),
            !has_listener(final(self).router().listeners(), subscriber) || old(self).state()
                == ConnectionState::Closed,
            old(self).state() == ConnectionState::Closed ==> outcome == Err::<
                Option<Subscription>,
                Error,
            >(Error::SessionClosed) && final(self).unchanged(old(self)),
            old(self).state() != ConnectionState::Closed ==> outcome.is_ok(),
            old(self).state() != ConnectionState::Closed && !has_listener(
                old(self).router().listeners(),
                subscriber,
            ) ==> outcome == Ok::<Option<Subscription>, Error>(None) && final(self).unchanged(
                old(self),
            ),
            old(self).state() != ConnectionState::Closed && has_listener(
                old(self).router().listeners(),
                subscriber,
            ) ==> {
                let at = index_of_listener(old(self).router().listeners(), subscriber);
                let feed = old(self).router().listeners()[at].feed;
                let rest = old(self).router().listeners().remove(at);
                &&& final(self).router().listeners() == rest
                &&& final(self).transport().feeds() == if listened(rest, feed) {
                    old(self).transport().feeds()
                } else {
                    without(old(self).transport().feeds(), feed)
                }
                &&& match outcome {
                    Ok(Some(given_up)) => given_up@ == feed && !listened(rest, feed) && old(self).state() == ConnectionState::Connected,
                    Ok(None) => listened(rest, feed) || old(self).state()
                        != ConnectionState::Connected,
                    Err(_) => false,
                }
            },
    {
        if self.transport.is_closed() {
            return Err(Error::SessionClosed);
        }
        let feed: Subscription = match self.router.remove(subscriber) {
            Some(feed) => feed,
            None => {
                return Ok(None);
            },
        };
        let ghost l0 = old(self).router().listeners();
        let ghost at = index_of_listener(l0, subscriber);
        let ghost l1 = self.router().listeners();
        let ghost feeds0 = old(self).transport().feeds();
        assert(0 <= at < l0.len() && l0[at].id == subscriber);
        if self.router.has_feed(&feed) {
            proof {
                assert forall|f: Feed| #[trigger] feeds0.contains(f) <==> listened(l1, f) by {
                    assert(feeds0.contains(f) <==> listened(l0, f));
                    lemma_listened_after_remove(l0, at, f);
                }
            }
            return Ok(None);
        }
        let send_now: bool = match self.transport.unsubscribe(&feed) {
            Ok(send_now) => send_now,
            Err(_) => false,
        };
        proof {
            let feeds1 = self.transport().feeds();
            assert(listened(l0, feed@));
            assert(feeds0.contains(feed@));
            assert forall|f: Feed| #[trigger] feeds1.contains(f) <==> listened(l1, f) by {
                assert(feeds0.contains(f) <==> listened(l0, f));
                lemma_listened_after_remove(l0, at, f);
                lemma_contains_after_without(feeds0, feed@, f);
            }
        }
        if send_now {
            Ok(Some(feed))
        } else {
            Ok(None)
        }
    }

    /// Shuts the session down for good. Every request in flight ends with
    /// `ConnectionLost`; no connection is attempted any more; and every
    /// later submission or subscription fails with `SessionClosed`.
    pub fn close(&mut self) -> (shutdown: Shutdown)
        requires
            old(self).wf(),
        ensures
            final(self).wf(),
            final(self).same_setup(old(self)),
            final(self).clock() == old(self).clock(),
            final(self).router() == old(self).router(),
            final(self).transport().feeds() == old(self).transport().feeds(),
            final(self).state() == ConnectionState::Closed,
            final(self).transport().failed_opens() == old(self).transport().failed_opens(),
            final(self).transport().last_ping_ms() == old(self).transport().last_ping_ms(),
            !final(self).transport().ping_outstanding(),
            final(self).correlator().pending() == Seq::<PendingRequest>::empty(),
            final(self).correlator().next_id() == old(self).correlator().next_id(),
            shutdown.failed@ == ids_of(old(self).correlator().pending()),
            shutdown.had_socket == (old(self).state() == ConnectionState::Connected || old(self).state() == ConnectionState::Connecting),
    {
        let had_socket: bool = self.transport.close();
        let failed: Vec<u64> = self.correlator.fail_all();
        Shutdown { had_socket, failed }
    }
}

/// Whether `outcome` is what `response` says: one status for each order
/// where the exchange accepted the request, else the status it gave.
pub open spec fn response_outcome(
    response: crate::ws::responses::PostResponse,
    outcome: Result<Vec<OrderStatus>, Error>,
) -> bool {
    match outcome {
        Ok(statuses) => {
            &&& accepted(response)
            &&& statuses@.len() == entries_of(response).len()
            &&& forall|i: int|
                0 <= i < statuses@.len() ==> statuses@[i] == status_of(
                    #[trigger] entries_of(response)[i],
                )
        },
        Err(e) => !accepted(response) && e == Error::Exchange(
            response.data.response.payload.status,
        ),
    }
}

proof fn lemma_filter_of_empty(
    requests: Seq<PendingRequest>,
    keep: spec_fn(PendingRequest) -> bool,
)
    requires
        requests.len() == 0,
    ensures
        requests.filter(keep).len() == 0,
{
    reveal(Seq::filter);
}

proof fn lemma_listened_after_remove(listeners: Seq<Listener>, at: int, feed: Feed)
    requires
        0 <= at < listeners.len(),
    ensures
        listened(listeners, feed) <==> (listened(listeners.remove(at), feed) || listeners[at].feed
            == feed),
{
    let rest = listeners.remove(at);
    if listened(listeners, feed) {
        let i = choose|i: int| 0 <= i < listeners.len() && (#[trigger] listeners[i]).feed == feed;
        if i < at {
            assert(rest[i].feed == feed);
        } else if i > at {
            assert(rest[i - 1].feed == feed);
        }
    }
    if listened(rest, feed) {
        let i = choose|i: int| 0 <= i < rest.len() && (#[trigger] rest[i]).feed == feed;
        if i < at {
            assert(listeners[i].feed == feed);
        } else {
            assert(listeners[i + 1].feed == feed);
        }
    }
}

proof fn lemma_contains_after_without(feeds: Seq<Feed>, gone: Feed, feed: Feed)
    requires
        feeds.no_duplicates(),
        feeds.contains(gone),
    ensures
        without(feeds, gone).contains(feed) <==> (feeds.contains(feed) && feed != gone),
{
    let at = feeds.index_of(gone);
    let rest = feeds.remove(at);
    if rest.contains(feed) {
        let i = choose|i: int| 0 <= i < rest.len() && rest[i] == feed;
        if i < at {
            assert(feeds[i] == feed);
        } else {
            assert(feeds[i + 1] == feed);
        }
    }
    if feeds.contains(feed) && feed != gone {
        let i = choose|i: int| 0 <= i < feeds.len() && feeds[i] == feed;
        if i < at {
            assert(rest[i] == feed);
        } else {
            assert(rest[i - 1] == feed);
        }
    }
}

} // verus!
