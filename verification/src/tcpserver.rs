//! The server: idle while it holds its listening socket, running once the
//! socket has been moved into the accept loop.
use crate::addr::SocketAddress;
use crate::connection::Connection;
use crate::error::Error;
use crate::transport::share;
use std::sync::Arc;
use tokio::net::TcpListener;
use tokio::task::JoinError;
use vstd::prelude::*;

verus! {

/// The connect filter of a server: a rule that is asked, for the address of
/// each accepted connection and before any I/O on it, whether the connection
/// goes on. Without a rule every connection goes on.
pub struct ConnectFilter<F: Fn(SocketAddress) -> bool> {
    rule: Option<F>,
}

impl<F: Fn(SocketAddress) -> bool> View for ConnectFilter<F> {
    type V = Option<F>;

    closed spec fn view(&self) -> Option<F> {
        self.rule
    }
}

/// A rule can be asked about every address.
pub open spec fn total<F: Fn(SocketAddress) -> bool>(rule: F) -> bool {
    forall|addr: SocketAddress| call_requires(rule, (addr,))
}

/// `verdict` is an answer that the filter `rule` may give for `addr`: `true`
/// where there is no rule, else what the rule may return.
pub open spec fn may_answer<F: Fn(SocketAddress) -> bool>(
    rule: Option<F>,
    addr: SocketAddress,
    verdict: bool,
) -> bool {
    match rule {
        None => verdict,
        Some(f) => call_ensures(f, (addr,), verdict),
    }
}

impl<F: Fn(SocketAddress) -> bool> ConnectFilter<F> {
    #[verifier::type_invariant]
    spec fn rule_is_total(self) -> bool {
        self.rule matches Some(f) ==> total(f)
    }

    /// The filter with the given rule, or without one.
    pub fn new(rule: Option<F>) -> (filter: Self)
        requires
            rule matches Some(f) ==> total(f),
        ensures
            filter@ == rule,
    {
        ConnectFilter { rule }
    }

    /// Asks the filter about `addr`.
    pub fn admits(&self, addr: SocketAddress) -> (verdict: bool)
        ensures
            may_answer(self@, addr, verdict),
    {
        proof {
            use_type_invariant(self);
        }
        match &self.rule {
            Some(f) => f(addr),
            None => true,
        }
    }

    /// Moves the rule out, leaving a filter without one.
    pub fn take(&mut self) -> (taken: Self)
        ensures
            taken@ == old(self)@,
            final(self)@ is None,
    {
        let mut taken = ConnectFilter { rule: None };
        core::mem::swap(self, &mut taken);
        taken
    }
}

/// The accept loop of a running server. It owns the listening socket for as
/// long as it runs.
pub struct AcceptLoop<I, IST, F: Fn(SocketAddress) -> bool> {
    pub listener: TcpListener,
    pub connect_event: ConnectFilter<F>,
    pub stream_init: Arc<IST>,
    pub input_event: Arc<I>,
}

/// What the accept loop does with one outcome of an accept.
pub enum AcceptStep<S, I, IST> {
    /// Start a task of its own for the connection, and accept again.
    Serve(Connection<S, I, IST>),
    /// The connect filter turned the address down: drop the connection,
    /// unnegotiated and unserved, and accept again.
    Discard(SocketAddress),
    /// Accepting failed: the loop ends, and this error is its result.
    Stop(Error),
}

impl<I, IST, F: Fn(SocketAddress) -> bool> AcceptLoop<I, IST, F> {
    /// The step for an outcome of an accept, given the filter's verdict on the
    /// accepted address.
    pub open spec fn step<S>(
        self,
        accepted: Result<(S, SocketAddress), std::io::Error>,
        verdict: bool,
    ) -> AcceptStep<S, I, IST> {
        match accepted {
            Err(e) => AcceptStep::Stop(Error::IOError(e)),
            Ok((socket, addr)) => if verdict {
                AcceptStep::Serve(
                    Connection {
                        socket,
                        addr,
                        stream_init: self.stream_init,
                        input_event: self.input_event,
                    },
                )
            } else {
                AcceptStep::Discard(addr)
            },
        }
    }

    /// `taken` is a step that the loop may take on `accepted`: the step for
    /// one of the verdicts that its filter may give on the accepted address.
    pub open spec fn may_step<S>(
        self,
        accepted: Result<(S, SocketAddress), std::io::Error>,
        taken: AcceptStep<S, I, IST>,
    ) -> bool {
        match accepted {
            Err(_) => taken == self.step(accepted, true),
            Ok((_, addr)) => exists|verdict: bool| #[trigger]
                may_answer(self.connect_event@, addr, verdict) && taken == self.step(
                    accepted,
                    verdict,
                ),
        }
    }

    /// Decides the step for one outcome of an accept once the filter has
    /// given its verdict (which a failed accept does not wait for).
    pub fn dispatch<S>(
        &self,
        accepted: Result<(S, SocketAddress), std::io::Error>,
        verdict: bool,
    ) -> (taken: AcceptStep<S, I, IST>)
        ensures
            taken == self.step(accepted, verdict),
    {
        match accepted {
            Err(e) => AcceptStep::Stop(Error::IOError(e)),
            Ok((socket, addr)) => {
                if verdict {
                    AcceptStep::Serve(
                        Connection {
                            socket,
                            addr,
                            stream_init: share(&self.stream_init),
                            input_event: share(&self.input_event),
                        },
                    )
                } else {
                    AcceptStep::Discard(addr)
                }
            },
        }
    }

    /// Takes one outcome of an accept: a failure stops the loop, an address
    /// that the connect filter turns down is discarded, every other
    /// connection is served.
    pub fn on_accept<S>(&self, accepted: Result<(S, SocketAddress), std::io::Error>) -> (taken:
        AcceptStep<S, I, IST>)
        ensures
            self.may_step(accepted, taken),
    {
        let verdict = match &accepted {
            Ok((_, addr)) => self.connect_event.admits(*addr),
            Err(_) => true,
        };
        self.dispatch(accepted, verdict)
    }
}

/// The result of a run of the server that waited for its accept loop: what
/// the loop ended with, or, where the loop's task was cancelled or panicked,
/// that.
pub fn block_result(joined: Result<Result<(), Error>, JoinError>) -> (r: Result<(), Error>)
    ensures
        r == (match joined {
            Ok(ended) => ended,
            Err(e) => Err(Error::JoinError(e)),
        }),
{
    match joined {
        Ok(ended) => ended,
        Err(e) => Err(Error::JoinError(e)),
    }
}

/// What a server is: the listening socket while the server is idle, and what
/// it will give its accept loop.
pub ghost struct ServerState<I, IST, F> {
    pub listener: Option<TcpListener>,
    pub connect_event: Option<F>,
    pub stream_init: Arc<IST>,
    pub input_event: Arc<I>,
}

impl<I, IST, F> ServerState<I, IST, F> {
    /// An idle server holds its listening socket; one that was started holds
    /// none.
    pub open spec fn listening(self) -> bool {
        self.listener is Some
    }

    /// Why a start fails in this state: the server holds no listening socket.
    /// `None` where the start succeeds.
    pub open spec fn start_error(self) -> Option<Error> {
        if self.listening() {
            None
        } else {
            Some(Error::NotListenerError)
        }
    }

    /// The state that `start` leaves: no listening socket, and no filter once
    /// the accept loop has it.
    pub open spec fn start(self) -> Self {
        if self.listening() {
            ServerState { listener: None, connect_event: None, ..self }
        } else {
            self
        }
    }
}

/// A TCP server.
pub struct TCPServer<I, IST, F: Fn(SocketAddress) -> bool> {
    listener: Option<TcpListener>,
    connect_event: ConnectFilter<F>,
    stream_init: Arc<IST>,
    input_event: Arc<I>,
}

impl<I, IST, F: Fn(SocketAddress) -> bool> View for TCPServer<I, IST, F> {
    type V = ServerState<I, IST, F>;

    closed spec fn view(&self) -> ServerState<I, IST, F> {
        ServerState {
            listener: self.listener,
            connect_event: self.connect_event@,
            stream_init: self.stream_init,
            input_event: self.input_event,
        }
    }
}

impl<I, IST, F: Fn(SocketAddress) -> bool> TCPServer<I, IST, F> {
    /// An idle server on a bound listening socket, with its negotiator, its
    /// input handler and its connect filter, if it has one.
    pub fn new(listener: TcpListener, stream_init: IST, input: I, connect_event: Option<F>) -> (server:
        Self)
        requires
            connect_event matches Some(f) ==> total(f),
        ensures
            server@.listener == Some(listener),
            server@.connect_event == connect_event,
            server@.stream_init == stream_init,
            server@.input_event == input,
    {
        Self::with_filter(listener, stream_init, input, ConnectFilter::new(connect_event))
    }

    /// An idle server as `new` makes it, with a connect filter that is already
    /// made.
    pub(crate) fn with_filter(
        listener: TcpListener,
        stream_init: IST,
        input: I,
        connect_event: ConnectFilter<F>,
    ) -> (server: Self)
        ensures
            server@.listener == Some(listener),
            server@.connect_event == connect_event@,
            server@.stream_init == stream_init,
            server@.input_event == input,
    {
        TCPServer {
            listener: Some(listener),
            connect_event,
            stream_init: Arc::new(stream_init),
            input_event: Arc::new(input),
        }
    }

    /// Whether the server still holds its listening socket, that is, whether
    /// it was never started.
    pub fn is_listening(&self) -> (idle: bool)
        ensures
            idle == self@.listening(),
    {
        self.listener.is_some()
    }

    /// Starts the server: moves the listening socket and the connect filter
    /// into an accept loop and hands the loop out. This succeeds once. A
    /// server that holds no listening socket fails with `NotListenerError`
    /// and stays as it is.
    pub fn start(&mut self) -> (r: Result<AcceptLoop<I, IST, F>, Error>)
        ensures
            final(self)@ == old(self)@.start(),
            r.err() == old(self)@.start_error(),
            r matches Ok(running) ==> (Some(running.listener) == old(self)@.listener
                && running.connect_event@ == old(self)@.connect_event
                && running.stream_init == old(self)@.stream_init
                && running.input_event == old(self)@.input_event),
    {
        match self.listener.take() {
            Some(listener) => {
                let connect_event = self.connect_event.take();
                Ok(
                    AcceptLoop {
                        listener,
                        connect_event,
                        stream_init: share(&self.stream_init),
                        input_event: share(&self.input_event),
                    },
                )
            },
            None => Err(Error::NotListenerError),
        }
    }
}

/// A server starts once: the start of an idle server succeeds, every start
/// after a start fails with `NotListenerError`, and a start that fails changes
/// nothing.
pub proof fn starts_once<I, IST, F>(server: ServerState<I, IST, F>)
    ensures
        server.listening() ==> server.start_error() is None,
        server.start().start_error() == Some(Error::NotListenerError),
        server.start().start() == server.start(),
        server.start_error() is Some ==> server.start() == server,
{
}

/// An address that the connect filter turns down is discarded: the one step
/// that the loop may take hands out neither the stream nor the negotiator nor
/// the input handler.
pub proof fn refused_address_is_discarded<S, I, IST, F: Fn(SocketAddress) -> bool>(
    running: AcceptLoop<I, IST, F>,
    socket: S,
    addr: SocketAddress,
    taken: AcceptStep<S, I, IST>,
)
    requires
        !may_answer(running.connect_event@, addr, true),
        running.may_step(Ok((socket, addr)), taken),
    ensures
        taken == AcceptStep::<S, I, IST>::Discard(addr),
{
}

/// An address that the connect filter lets pass, and every address where
/// there is no filter, is served, with the address taken at accept time.
pub proof fn admitted_address_is_served<S, I, IST, F: Fn(SocketAddress) -> bool>(
    running: AcceptLoop<I, IST, F>,
    socket: S,
    addr: SocketAddress,
    taken: AcceptStep<S, I, IST>,
)
    requires
        !may_answer(running.connect_event@, addr, false),
        running.may_step(Ok((socket, addr)), taken),
    ensures
        taken matches AcceptStep::Serve(connection) && connection.addr == addr
            && connection.socket == socket && connection.stream_init == running.stream_init
            && connection.input_event == running.input_event,
{
}

} // verus!
