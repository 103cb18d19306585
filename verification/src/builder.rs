//! The builder: collects the settings of a server and hands them out, complete,
//! to whoever binds the listening socket.
use crate::addr::SocketAddress;
use crate::tcpserver::{total, ConnectFilter, TCPServer};
use tokio::net::TcpListener;
use vstd::prelude::*;

verus! {

/// A setting that a server cannot do without.
#[derive(Clone, Copy, Debug, PartialEq, Eq, Structural)]
pub enum Setting {
    /// The input handler.
    InputEvent,
    /// The transport negotiator.
    StreamInit,
}

/// The first required setting that is missing, the input handler before the
/// negotiator, or `None` where both are there.
pub open spec fn first_missing(has_input: bool, has_stream_init: bool) -> Option<Setting> {
    if !has_input {
        Some(Setting::InputEvent)
    } else if !has_stream_init {
        Some(Setting::StreamInit)
    } else {
        None
    }
}

/// The builder of a server: the address to bind, and the settings given so
/// far.
pub struct Builder<I, A, IST, F: Fn(SocketAddress) -> bool> {
    input: Option<I>,
    connect_event: ConnectFilter<F>,
    stream_init: Option<IST>,
    addr: A,
}

/// What a builder holds.
pub ghost struct Settings<I, A, IST, F> {
    pub input: Option<I>,
    pub connect_event: Option<F>,
    pub stream_init: Option<IST>,
    pub addr: A,
}

impl<I, A, IST, F> Settings<I, A, IST, F> {
    /// The first required setting that is missing, if one is.
    pub open spec fn missing(self) -> Option<Setting> {
        first_missing(self.input is Some, self.stream_init is Some)
    }
}

impl<I, A, IST, F: Fn(SocketAddress) -> bool> View for Builder<I, A, IST, F> {
    type V = Settings<I, A, IST, F>;

    closed spec fn view(&self) -> Settings<I, A, IST, F> {
        Settings {
            input: self.input,
            connect_event: self.connect_event@,
            stream_init: self.stream_init,
            addr: self.addr,
        }
    }
}

/// The complete configuration of a server. It does not change once it is
/// built, and making the server uses it up.
pub struct ServerConfig<I, A, IST, F: Fn(SocketAddress) -> bool> {
    addr: A,
    connect_event: ConnectFilter<F>,
    stream_init: IST,
    input: I,
}

impl<I, A, IST, F: Fn(SocketAddress) -> bool> View for ServerConfig<I, A, IST, F> {
    type V = Settings<I, A, IST, F>;

    closed spec fn view(&self) -> Settings<I, A, IST, F> {
        Settings {
            input: Some(self.input),
            connect_event: self.connect_event@,
            stream_init: Some(self.stream_init),
            addr: self.addr,
        }
    }
}

impl<I, A, IST, F: Fn(SocketAddress) -> bool> Builder<I, A, IST, F> {
    /// A builder for a server on `addr`, with nothing else set: no input
    /// handler, no negotiator, and no connect filter, so that every
    /// connection would be admitted.
    pub fn new(addr: A) -> (builder: Self)
        ensures
            builder@ == (Settings::<I, A, IST, F> {
                input: None,
                connect_event: None,
                stream_init: None,
                addr,
            }),
    {
        Builder { input: None, connect_event: ConnectFilter::new(None), stream_init: None, addr }
    }

    /// Sets the input handler, in place of an earlier one.
    pub fn set_input_event(self, f: I) -> (builder: Self)
        ensures
            builder@ == (Settings { input: Some(f), ..self@ }),
    {
        let mut builder = self;
        builder.input = Some(f);
        builder
    }

    /// Sets the connect filter, in place of an earlier one. The filter must
    /// answer for every address.
    pub fn set_connect_event(self, c: F) -> (builder: Self)
        requires
            total(c),
        ensures
            builder@ == (Settings { connect_event: Some(c), ..self@ }),
    {
        let mut builder = self;
        builder.connect_event = ConnectFilter::new(Some(c));
        builder
    }

    /// Sets the transport negotiator, in place of an earlier one.
    pub fn set_stream_init(self, c: IST) -> (builder: Self)
        ensures
            builder@ == (Settings { stream_init: Some(c), ..self@ }),
    {
        let mut builder = self;
        builder.stream_init = Some(c);
        builder
    }

    /// The first required setting that is still missing, the input handler
    /// before the negotiator; `None` once the builder can build.
    pub fn missing(&self) -> (setting: Option<Setting>)
        ensures
            setting == self@.missing(),
    {
        if self.input.is_none() {
            Some(Setting::InputEvent)
        } else if self.stream_init.is_none() {
            Some(Setting::StreamInit)
        } else {
            None
        }
    }

    /// The complete configuration. A builder without an input handler or
    /// without a negotiator cannot build.
    pub fn build(self) -> (config: ServerConfig<I, A, IST, F>)
        requires
            self@.missing() is None,
        ensures
            config@ == self@,
    {
        let Builder { input, connect_event, stream_init, addr } = self;
        ServerConfig {
            addr,
            connect_event,
            stream_init: stream_init.unwrap(),
            input: input.unwrap(),
        }
    }
}

impl<I, A, IST, F: Fn(SocketAddress) -> bool> ServerConfig<I, A, IST, F> {
    /// The address that the listening socket is to be bound to.
    pub fn addr(&self) -> (addr: &A)
        ensures
            *addr == self@.addr,
    {
        &self.addr
    }

    /// The idle server on `listener`, the socket bound to the configured
    /// address, with everything else that was configured.
    pub fn into_server(self, listener: TcpListener) -> (server: TCPServer<I, IST, F>)
        ensures
            server@.listener == Some(listener),
            server@.connect_event == self@.connect_event,
            Some(*server@.stream_init) == self@.stream_init,
            Some(*server@.input_event) == self@.input,
    {
        let ServerConfig { addr: _, connect_event, stream_init, input } = self;
        TCPServer::with_filter(listener, stream_init, input, connect_event)
    }
}

} // verus!
