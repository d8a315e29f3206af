//! The streaming session: the decisions of the receive loop, the liveness
//! watchdog, and the dispatch of decoded events to the caller's handler. The
//! connection itself is opened, read and written by the caller, who hands the
//! outcome of each step back to the session.
use vstd::prelude::*;
use crate::endpoint::{
    Config, ConnectTarget, FuturesMarket, FuturesWebsocketAPI, WebsocketAPI, futures_url,
    join_topics, joined, resolve_target, resolves, spot_url, topics_view,
};
use crate::envelope::{decode_futures, decode_spot, futures_event_of, spot_event_of};
use crate::errors::Error;
use crate::events::{EventTag, FuturesWebsocketEvent, WebsocketEvent};
use crate::json::{Json, parsed_json};

verus! {

/// The consecutive timed-out reads after which the spot loop gives up.
pub const SPOT_DEAD_AFTER: u32 = 3;

/// The consecutive timed-out reads after which the derivatives loop gives up.
pub const FUTURES_DEAD_AFTER: u32 = 10;

/// The caller's consumer of events. An error that it returns ends the loop.
pub trait EventHandler<E> {
    fn handle(&mut self, event: E) -> Result<(), String>;
}

/// A frame read from the connection.
#[derive(Debug, PartialEq)]
pub enum Frame {
    Text(String),
    Ping(Vec<u8>),
    Pong(Vec<u8>),
    Binary(Vec<u8>),
    Close(Option<String>),
}

/// What one more timed-out read makes of the count of consecutive ones: the
/// new count, or nothing when it reaches `dead_after` and the loop is dead.
pub open spec fn after_timeout(missed: u32, dead_after: u32) -> Option<u32> {
    if missed + 1 >= dead_after {
        None
    } else {
        Some((missed + 1) as u32)
    }
}

/// The count after `k` more timed-out reads whose probes were written, or
/// nothing when the loop died on one of them.
pub open spec fn after_timeouts(missed: u32, dead_after: u32, k: nat) -> Option<u32>
    decreases k,
{
    if k == 0 {
        Some(missed)
    } else {
        match after_timeouts(missed, dead_after, (k - 1) as nat) {
            Some(m) => after_timeout(m, dead_after),
            None => None,
        }
    }
}

/// From a count of zero, the loop survives fewer than `dead_after`
/// consecutive timed-out reads, with the count equal to their number, and
/// dies on the `dead_after`-th.
pub proof fn lemma_dead_after_threshold(dead_after: u32, k: nat)
    requires
        1 <= dead_after,
    ensures
        k < dead_after ==> after_timeouts(0, dead_after, k) == Some(k as u32),
        k >= dead_after ==> after_timeouts(0, dead_after, k) is None,
    decreases k,
{
    if k > 0 {
        lemma_dead_after_threshold(dead_after, (k - 1) as nat);
    }
}

/// The liveness watchdog: the count of consecutive timed-out reads since the
/// last sign of life.
pub struct Watchdog {
    pub missed: u32,
    pub dead_after: u32,
}

impl Watchdog {
    pub open spec fn wf(&self) -> bool {
        1 <= self.dead_after && self.missed < self.dead_after
    }

    pub fn new(dead_after: u32) -> (r: Watchdog)
        requires
            1 <= dead_after,
        ensures
            r.wf(),
            r.missed == 0,
            r.dead_after == dead_after,
    {
        Watchdog { missed: 0, dead_after }
    }

    /// A sign of life: the count starts again from zero.
    pub fn reset(&mut self)
        requires
            old(self).wf(),
        ensures
            final(self).wf(),
            final(self).missed == 0,
            final(self).dead_after == old(self).dead_after,
    {
        self.missed = 0;
    }

    /// A read timed out, and a probe was written or failed to be.
    pub fn on_timeout(&mut self, probe_written: bool) -> (r: Result<(), Error>)
        requires
            old(self).wf(),
        ensures
            final(self).dead_after == old(self).dead_after,
            !probe_written ==> (r matches Err(Error::ProbeFailed) && *final(self) == *old(self)),
            probe_written ==> match after_timeout(old(self).missed, old(self).dead_after) {
                Some(m) => r is Ok && final(self).missed == m && final(self).wf(),
                None => r matches Err(Error::LoopDead) && final(self).missed == old(self).dead_after,
            },
    {
        if !probe_written {
            return Err(Error::ProbeFailed);
        }
        self.missed = self.missed + 1;
        if self.missed >= self.dead_after {
            Err(Error::LoopDead)
        } else {
            Ok(())
        }
    }
}

/// A spot session: an optional open connection of type `C`, owned by the
/// session, and the caller's handler.
pub struct WebSockets<H, C> {
    pub socket: Option<C>,
    pub handler: H,
    pub watchdog: Watchdog,
    /// Every event handed to the handler so far, in order.
    pub delivered: Ghost<Seq<(EventTag, Json)>>,
}

impl<H: EventHandler<WebsocketEvent>, C> WebSockets<H, C> {
    pub open spec fn wf(&self) -> bool {
        self.watchdog.wf() && self.watchdog.dead_after == SPOT_DEAD_AFTER
    }

    pub fn new(handler: H) -> (r: Self)
        ensures
            r.wf(),
            r.socket is None,
            r.handler == handler,
            r.watchdog.missed == 0,
            r.delivered@ == Seq::<(EventTag, Json)>::empty(),
    {
        WebSockets {
            socket: None,
            handler,
            watchdog: Watchdog::new(SPOT_DEAD_AFTER),
            delivered: Ghost(Seq::empty()),
        }
    }

    /// The target of one topic on the default endpoint.
    pub fn connect(&self, subscription: &str) -> (r: Result<ConnectTarget, Error>)
        ensures
            resolves(spot_url(WebsocketAPI::Default, subscription@), r),
    {
        resolve_target(WebsocketAPI::Default.params(subscription))
    }

    /// The target of one topic on the configured endpoint.
    pub fn connect_with_config(&self, subscription: &str, config: &Config) -> (r: Result<
        ConnectTarget,
        Error,
    >)
        ensures
            resolves(config.ws_endpoint@ + "/"@ + subscription@, r),
    {
        resolve_target(WebsocketAPI::Custom(config.ws_endpoint.clone()).params(subscription))
    }

    /// The target of several topics on the default endpoint.
    pub fn connect_multiple_streams(&self, endpoints: &[String]) -> (r: Result<ConnectTarget, Error>)
        ensures
            resolves(spot_url(WebsocketAPI::MultiStream, joined(topics_view(endpoints@))), r),
    {
        let topics = join_topics(endpoints);
        resolve_target(WebsocketAPI::MultiStream.params(topics.as_str()))
    }

    /// Stores a connection that the caller opened to a target; it replaces
    /// any earlier one.
    pub fn attach(&mut self, connection: C)
        requires
            old(self).wf(),
        ensures
            final(self).wf(),
            final(self).socket == Some(connection),
            final(self).watchdog.missed == 0,
            final(self).handler == old(self).handler,
            final(self).delivered == old(self).delivered,
    {
        self.socket = Some(connection);
        self.watchdog.reset();
    }

    /// Takes the open connection out of the session, for the caller to send
    /// it a close frame; an error when there is none.
    pub fn disconnect(&mut self) -> (r: Result<C, Error>)
        ensures
            match old(self).socket {
                Some(c) => r == Ok::<C, Error>(c) && final(self).socket is None,
                None => r matches Err(Error::NotConnected) && final(self).socket is None,
            },
            final(self).handler == old(self).handler,
            final(self).watchdog == old(self).watchdog,
            final(self).delivered == old(self).delivered,
    {
        match self.socket.take() {
            Some(c) => Ok(c),
            None => Err(Error::NotConnected),
        }
    }

    /// Hands a text frame to the decode and dispatch pipeline, as the loop
    /// does, without a connection.
    pub fn test_handle_msg(&mut self, msg: &str) -> (r: Result<(), Error>)
        ensures
            final(self).socket == old(self).socket,
            final(self).watchdog == old(self).watchdog,
            match parsed_json(msg@) {
                None => r matches Err(Error::Json) && final(self).delivered == old(self).delivered,
                Some(j) => match spot_event_of(j) {
                    None => r is Ok && final(self).delivered == old(self).delivered,
                    Some(ev) => final(self).delivered@ == old(self).delivered@.push(ev) && (r is Ok
                        || r matches Err(Error::Handler(_))),
                },
            },
    {
        self.handle_msg(msg)
    }

    fn handle_msg(&mut self, msg: &str) -> (r: Result<(), Error>)
        ensures
            final(self).socket == old(self).socket,
            final(self).watchdog == old(self).watchdog,
            match parsed_json(msg@) {
                None => r matches Err(Error::Json) && final(self).delivered == old(self).delivered,
                Some(j) => match spot_event_of(j) {
                    None => r is Ok && final(self).delivered == old(self).delivered,
                    Some(ev) => final(self).delivered@ == old(self).delivered@.push(ev) && (r is Ok
                        || r matches Err(Error::Handler(_))),
                },
            },
    {
        match decode_spot(msg) {
            Err(e) => Err(e),
            Ok(None) => Ok(()),
            Ok(Some(ev)) => {
                self.delivered = Ghost(self.delivered@.push(ev.view()));
                match self.handler.handle(ev) {
                    Ok(()) => Ok(()),
                    Err(m) => Err(Error::Handler(m)),
                }
            },
        }
    }

    /// The check at the top of each turn of the loop: it ends when the caller
    /// asked it to stop, or when there is no connection to read.
    pub fn begin_iteration(&self, stop_requested: bool) -> (r: Result<(), Error>)
        ensures
            stop_requested ==> r matches Err(Error::Stopped),
            !stop_requested && self.socket is None ==> r matches Err(Error::NotConnected),
            !stop_requested && self.socket is Some ==> r is Ok,
    {
        if stop_requested {
            Err(Error::Stopped)
        } else if self.socket.is_none() {
            Err(Error::NotConnected)
        } else {
            Ok(())
        }
    }

    /// Handles a frame that was read. A ping gives the one payload to answer
    /// with a pong before the next read; a pong or a text frame resets the
    /// watchdog; a close frame ends the loop; a text frame goes through the
    /// decode and dispatch pipeline, whose error ends the loop.
    pub fn on_frame(&mut self, frame: Frame) -> (r: Result<Option<Vec<u8>>, Error>)
        requires
            old(self).wf(),
        ensures
            final(self).wf(),
            final(self).socket == old(self).socket,
            match frame {
                Frame::Ping(p) => r == Ok::<Option<Vec<u8>>, Error>(Some(p)) && final(self).watchdog
                    == old(self).watchdog && final(self).delivered == old(self).delivered,
                Frame::Pong(_) => r == Ok::<Option<Vec<u8>>, Error>(None) && final(self).watchdog.missed
                    == 0 && final(self).delivered == old(self).delivered,
                Frame::Binary(_) => r == Ok::<Option<Vec<u8>>, Error>(None) && final(self).watchdog
                    == old(self).watchdog && final(self).delivered == old(self).delivered,
                Frame::Close(reason) => r == Err::<Option<Vec<u8>>, Error>(Error::Disconnected(reason))
                    && final(self).watchdog == old(self).watchdog && final(self).delivered == old(
                    self,
                ).delivered,
                Frame::Text(t) => final(self).watchdog.missed == 0 && (r is Ok ==> r == Ok::<
                    Option<Vec<u8>>,
                    Error,
                >(None)) && match parsed_json(t@) {
                    None => r matches Err(Error::Json) && final(self).delivered == old(self).delivered,
                    Some(j) => match spot_event_of(j) {
                        None => r is Ok && final(self).delivered == old(self).delivered,
                        Some(ev) => final(self).delivered@ == old(self).delivered@.push(ev) && (r is Ok
                            || r matches Err(Error::Handler(_))),
                    },
                },
            },
    {
        match frame {
            Frame::Text(t) => {
                self.watchdog.reset();
                match self.handle_msg(t.as_str()) {
                    Ok(()) => Ok(None),
                    Err(e) => Err(e),
                }
            },
            Frame::Ping(p) => Ok(Some(p)),
            Frame::Pong(_) => {
                self.watchdog.reset();
                Ok(None)
            },
            Frame::Binary(_) => Ok(None),
            Frame::Close(reason) => Err(Error::Disconnected(reason)),
        }
    }

    /// The outcome of writing the pong that a ping asked for: a failed write
    /// ends the loop.
    pub fn on_pong_written(&self, written: bool) -> (r: Result<(), Error>)
        ensures
            written ==> r is Ok,
            !written ==> r matches Err(Error::PongFailed),
    {
        if written {
            Ok(())
        } else {
            Err(Error::PongFailed)
        }
    }

    /// A read failed or timed out, and the caller wrote a ping probe (or
    /// failed to). A failed probe ends the loop, and so does the timeout that
    /// brings the count of consecutive ones to the threshold.
    pub fn on_read_failed(&mut self, probe_written: bool) -> (r: Result<(), Error>)
        requires
            old(self).wf(),
        ensures
            final(self).socket == old(self).socket,
            final(self).delivered == old(self).delivered,
            final(self).watchdog.dead_after == old(self).watchdog.dead_after,
            !probe_written ==> (r matches Err(Error::ProbeFailed) && final(self).watchdog == old(
                self,
            ).watchdog),
            probe_written ==> match after_timeout(old(self).watchdog.missed, SPOT_DEAD_AFTER) {
                Some(m) => r is Ok && final(self).watchdog.missed == m && final(self).wf(),
                None => r matches Err(Error::LoopDead),
            },
    {
        self.watchdog.on_timeout(probe_written)
    }
}

/// A derivatives session: an optional open connection of type `C`, owned by the
/// session, and the caller's handler.
pub struct FuturesWebSockets<H, C> {
    pub socket: Option<C>,
    pub handler: H,
    pub watchdog: Watchdog,
    /// Every event handed to the handler so far, in order.
    pub delivered: Ghost<Seq<(EventTag, Json)>>,
}

impl<H: EventHandler<FuturesWebsocketEvent>, C> FuturesWebSockets<H, C> {
    pub open spec fn wf(&self) -> bool {
        self.watchdog.wf() && self.watchdog.dead_after == FUTURES_DEAD_AFTER
    }

    pub fn new(handler: H) -> (r: Self)
        ensures
            r.wf(),
            r.socket is None,
            r.handler == handler,
            r.watchdog.missed == 0,
            r.delivered@ == Seq::<(EventTag, Json)>::empty(),
    {
        FuturesWebSockets {
            socket: None,
            handler,
            watchdog: Watchdog::new(FUTURES_DEAD_AFTER),
            delivered: Ghost(Seq::empty()),
        }
    }

    /// The target of one topic on a market's default endpoint.
    pub fn connect(&self, market: FuturesMarket, subscription: &str) -> (r: Result<
        ConnectTarget,
        Error,
    >)
        ensures
            resolves(futures_url(FuturesWebsocketAPI::Default, market, subscription@), r),
    {
        resolve_target(FuturesWebsocketAPI::Default.params(market, subscription))
    }

    /// The target of one topic on the configured endpoint.
    pub fn connect_with_config(&self, market: FuturesMarket, subscription: &str, config: &Config) -> (r:
        Result<ConnectTarget, Error>)
        ensures
            resolves(config.ws_endpoint@ + "/"@ + subscription@, r),
    {
        resolve_target(
            FuturesWebsocketAPI::Custom(config.ws_endpoint.clone()).params(market, subscription),
        )
    }

    /// The target of several topics on a market's default endpoint.
    pub fn connect_multiple_streams(&self, market: FuturesMarket, endpoints: &[String]) -> (r:
        Result<ConnectTarget, Error>)
        ensures
            resolves(
                futures_url(FuturesWebsocketAPI::MultiStream, market, joined(topics_view(endpoints@))),
                r,
            ),
    {
        let topics = join_topics(endpoints);
        resolve_target(FuturesWebsocketAPI::MultiStream.params(market, topics.as_str()))
    }

    /// Stores a connection that the caller opened to a target; it replaces
    /// any earlier one.
    pub fn attach(&mut self, connection: C)
        requires
            old(self).wf(),
        ensures
            final(self).wf(),
            final(self).socket == Some(connection),
            final(self).watchdog.missed == 0,
            final(self).handler == old(self).handler,
            final(self).delivered == old(self).delivered,
    {
        self.socket = Some(connection);
        self.watchdog.reset();
    }

    /// Takes the open connection out of the session, for the caller to send
    /// it a close frame; an error when there is none.
    pub fn disconnect(&mut self) -> (r: Result<C, Error>)
        ensures
            match old(self).socket {
                Some(c) => r == Ok::<C, Error>(c) && final(self).socket is None,
                None => r matches Err(Error::NotConnected) && final(self).socket is None,
            },
            final(self).handler == old(self).handler,
            final(self).watchdog == old(self).watchdog,
            final(self).delivered == old(self).delivered,
    {
        match self.socket.take() {
            Some(c) => Ok(c),
            None => Err(Error::NotConnected),
        }
    }

    /// Hands a text frame to the decode and dispatch pipeline, as the loop
    /// does, without a connection.
    pub fn test_handle_msg(&mut self, msg: &str) -> (r: Result<(), Error>)
        ensures
            final(self).socket == old(self).socket,
            final(self).watchdog == old(self).watchdog,
            match parsed_json(msg@) {
                None => r matches Err(Error::Json) && final(self).delivered == old(self).delivered,
                Some(j) => match futures_event_of(j) {
                    None => r is Ok && final(self).delivered == old(self).delivered,
                    Some(ev) => final(self).delivered@ == old(self).delivered@.push(ev) && (r is Ok
                        || r matches Err(Error::Handler(_))),
                },
            },
    {
        self.handle_msg(msg)
    }

    fn handle_msg(&mut self, msg: &str) -> (r: Result<(), Error>)
        ensures
            final(self).socket == old(self).socket,
            final(self).watchdog == old(self).watchdog,
            match parsed_json(msg@) {
                None => r matches Err(Error::Json) && final(self).delivered == old(self).delivered,
                Some(j) => match futures_event_of(j) {
                    None => r is Ok && final(self).delivered == old(self).delivered,
                    Some(ev) => final(self).delivered@ == old(self).delivered@.push(ev) && (r is Ok
                        || r matches Err(Error::Handler(_))),
                },
            },
    {
        match decode_futures(msg) {
            Err(e) => Err(e),
            Ok(None) => Ok(()),
            Ok(Some(ev)) => {
                self.delivered = Ghost(self.delivered@.push(ev.view()));
                match self.handler.handle(ev) {
                    Ok(()) => Ok(()),
                    Err(m) => Err(Error::Handler(m)),
                }
            },
        }
    }

    /// The check at the top of each turn of the loop: it ends when the caller
    /// asked it to stop, or when there is no connection to read.
    pub fn begin_iteration(&self, stop_requested: bool) -> (r: Result<(), Error>)
        ensures
            stop_requested ==> r matches Err(Error::Stopped),
            !stop_requested && self.socket is None ==> r matches Err(Error::NotConnected),
            !stop_requested && self.socket is Some ==> r is Ok,
    {
        if stop_requested {
            Err(Error::Stopped)
        } else if self.socket.is_none() {
            Err(Error::NotConnected)
        } else {
            Ok(())
        }
    }

    /// Handles a frame that was read. A ping gives the one payload to answer
    /// with a pong before the next read; a pong or a text frame resets the
    /// watchdog; a close frame ends the loop; a text frame goes through the
    /// decode and dispatch pipeline, whose error ends the loop.
    pub fn on_frame(&mut self, frame: Frame) -> (r: Result<Option<Vec<u8>>, Error>)
        requires
            old(self).wf(),
        ensures
            final(self).wf(),
            final(self).socket == old(self).socket,
            match frame {
                Frame::Ping(p) => r == Ok::<Option<Vec<u8>>, Error>(Some(p)) && final(self).watchdog
                    == old(self).watchdog && final(self).delivered == old(self).delivered,
                Frame::Pong(_) => r == Ok::<Option<Vec<u8>>, Error>(None) && final(self).watchdog.missed
                    == 0 && final(self).delivered == old(self).delivered,
                Frame::Binary(_) => r == Ok::<Option<Vec<u8>>, Error>(None) && final(self).watchdog
                    == old(self).watchdog && final(self).delivered == old(self).delivered,
                Frame::Close(reason) => r == Err::<Option<Vec<u8>>, Error>(Error::Disconnected(reason))
                    && final(self).watchdog == old(self).watchdog && final(self).delivered == old(
                    self,
                ).delivered,
                Frame::Text(t) => final(self).watchdog.missed == 0 && (r is Ok ==> r == Ok::<
                    Option<Vec<u8>>,
                    Error,
                >(None)) && match parsed_json(t@) {
                    None => r matches Err(Error::Json) && final(self).delivered == old(self).delivered,
                    Some(j) => match futures_event_of(j) {
                        None => r is Ok && final(self).delivered == old(self).delivered,
                        Some(ev) => final(self).delivered@ == old(self).delivered@.push(ev) && (r is Ok
                            || r matches Err(Error::Handler(_))),
                    },
                },
            },
    {
        match frame {
            Frame::Text(t) => {
                self.watchdog.reset();
                match self.handle_msg(t.as_str()) {
                    Ok(()) => Ok(None),
                    Err(e) => Err(e),
                }
            },
            Frame::Ping(p) => Ok(Some(p)),
            Frame::Pong(_) => {
                self.watchdog.reset();
                Ok(None)
            },
            Frame::Binary(_) => Ok(None),
            Frame::Close(reason) => Err(Error::Disconnected(reason)),
        }
    }

    /// The outcome of writing the pong that a ping asked for: a failed write
    /// ends the loop.
    pub fn on_pong_written(&self, written: bool) -> (r: Result<(), Error>)
        ensures
            written ==> r is Ok,
            !written ==> r matches Err(Error::PongFailed),
    {
        if written {
            Ok(())
        } else {
            Err(Error::PongFailed)
        }
    }

    /// A read failed or timed out, and the caller wrote a ping probe (or
    /// failed to). A failed probe ends the loop, and so does the timeout that
    /// brings the count of consecutive ones to the threshold.
    pub fn on_read_failed(&mut self, probe_written: bool) -> (r: Result<(), Error>)
        requires
            old(self).wf(),
        ensures
            final(self).socket == old(self).socket,
            final(self).delivered == old(self).delivered,
            final(self).watchdog.dead_after == old(self).watchdog.dead_after,
            !probe_written ==> (r matches Err(Error::ProbeFailed) && final(self).watchdog == old(
                self,
            ).watchdog),
            probe_written ==> match after_timeout(old(self).watchdog.missed, FUTURES_DEAD_AFTER) {
                Some(m) => r is Ok && final(self).watchdog.missed == m && final(self).wf(),
                None => r matches Err(Error::LoopDead),
            },
    {
        self.watchdog.on_timeout(probe_written)
    }
}

} // verus!
