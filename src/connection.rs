//! The server configuration and the per-connection state machine: what to
//! send and whether to stay open, for each thing that happens on a socket.
//! The caller performs the reads, writes and file reads.

use vstd::prelude::*;

use crate::compose::{
    compose_file_response, compose_http_response, file_response, response_plan, FileOutcome,
    PlanView, ResponsePlan, ServerFunction,
};
use crate::errors::{ConfigError, StdStupidError};
use crate::handshake::{
    accept_value, is_upgrade_request, is_websocket_upgrade, upgrade_response, websocket_handshake,
    websocket_key, Handshake,
};
use crate::request::{parse_http_connection, parse_request};
use crate::response::{compose_server_error, server_error_bytes};
use crate::websocket::{decode_frame, length_header, read_length_header, WebSocketFrame, WebSocketOpCode};

verus! {

/// How long a connection may stay idle, in milliseconds.
pub const KEEP_ALIVE_THRESHOLD_MS: u64 = 7000;

/// The most bytes read from a socket at once.
pub const MAX_RECEIVE_BUFFER: usize = 2048;

pub const DEFAULT_LISTEN_TO_PORT: u16 = 8080;

// ---------------------------------------------------------------------------
// Configuration

/// 224.0.0.0/4.
pub open spec fn is_multicast(ip: [u8; 4]) -> bool {
    224 <= ip[0] <= 239
}

/// 192.0.2.0/24, 198.51.100.0/24 and 203.0.113.0/24.
pub open spec fn is_documentation(ip: [u8; 4]) -> bool {
    (ip[0] == 192 && ip[1] == 0 && ip[2] == 2) || (ip[0] == 198 && ip[1] == 51 && ip[2] == 100)
        || (ip[0] == 203 && ip[1] == 0 && ip[2] == 113)
}

/// A configuration the server can start with.
#[derive(Debug, Clone, Copy, PartialEq, Eq)]
pub struct ServerConfig {
    server_function: ServerFunction,
    listening_address: [u8; 4],
    port: u16,
    thread_count: usize,
    keepalive: bool,
}

pub struct ConfigView {
    pub server_function: ServerFunction,
    pub listening_address: [u8; 4],
    pub port: u16,
    pub thread_count: usize,
    pub keepalive: bool,
}

impl View for ServerConfig {
    type V = ConfigView;

    closed spec fn view(&self) -> ConfigView {
        ConfigView {
            server_function: self.server_function,
            listening_address: self.listening_address,
            port: self.port,
            thread_count: self.thread_count,
            keepalive: self.keepalive,
        }
    }
}

/// The check of a configuration, in order: address, worker count, mode.
pub open spec fn config_error(
    server_function: ServerFunction,
    ip: [u8; 4],
    thread_count: usize,
) -> Option<ConfigError> {
    if is_multicast(ip) {
        Some(ConfigError::MulticastAddress)
    } else if is_documentation(ip) {
        Some(ConfigError::DocumentationAddress)
    } else if thread_count == 0 {
        Some(ConfigError::ZeroThreads)
    } else if server_function == ServerFunction::Proxy {
        Some(ConfigError::ProxyNotImplemented)
    } else {
        None
    }
}

impl ServerConfig {
    #[verifier::type_invariant]
    closed spec fn startable(&self) -> bool {
        self.server_function != ServerFunction::Proxy && self.thread_count > 0
    }

    /// Checks a configuration; without an address or port the server listens
    /// on 127.0.0.1:8080.
    pub fn new(
        server_function_type: ServerFunction,
        ip_address_given: Option<[u8; 4]>,
        port_given: Option<u16>,
        thread_count: usize,
        keepalive: bool,
    ) -> (r: Result<Self, StdStupidError>)
        ensures
            ({
                let ip = match ip_address_given {
                    Some(a) => a,
                    None => [127u8, 0u8, 0u8, 1u8],
                };
                let port = match port_given {
                    Some(p) => p,
                    None => DEFAULT_LISTEN_TO_PORT,
                };
                match config_error(server_function_type, ip, thread_count) {
                    Some(e) => r == Err::<Self, _>(StdStupidError::Configuration(e)),
                    None => r matches Ok(c) && c@ == (ConfigView {
                        server_function: server_function_type,
                        listening_address: ip,
                        port,
                        thread_count,
                        keepalive,
                    }),
                }
            }),
    {
        let ip: [u8; 4] = match ip_address_given {
            Some(a) => a,
            None => [127, 0, 0, 1],
        };
        let port: u16 = match port_given {
            Some(p) => p,
            None => DEFAULT_LISTEN_TO_PORT,
        };
        if 224 <= ip[0] && ip[0] <= 239 {
            return Err(StdStupidError::Configuration(ConfigError::MulticastAddress));
        }
        if (ip[0] == 192 && ip[1] == 0 && ip[2] == 2) || (ip[0] == 198 && ip[1] == 51 && ip[2]
            == 100) || (ip[0] == 203 && ip[1] == 0 && ip[2] == 113) {
            return Err(StdStupidError::Configuration(ConfigError::DocumentationAddress));
        }
        if thread_count == 0 {
            return Err(StdStupidError::Configuration(ConfigError::ZeroThreads));
        }
        if server_function_type == ServerFunction::Proxy {
            return Err(StdStupidError::Configuration(ConfigError::ProxyNotImplemented));
        }
        Ok(
            ServerConfig {
                server_function: server_function_type,
                listening_address: ip,
                port,
                thread_count,
                keepalive,
            },
        )
    }

    pub fn get_server_function(&self) -> (r: ServerFunction)
        ensures
            r == self@.server_function,
            r != ServerFunction::Proxy,
    {
        proof {
            use_type_invariant(self);
        }
        self.server_function
    }

    pub fn get_server_port(&self) -> (r: u16)
        ensures
            r == self@.port,
    {
        self.port
    }

    pub fn get_server_ip(&self) -> (r: [u8; 4])
        ensures
            r == self@.listening_address,
    {
        self.listening_address
    }

    pub fn thread_count(&self) -> (r: usize)
        ensures
            r == self@.thread_count,
            r > 0,
    {
        proof {
            use_type_invariant(self);
        }
        self.thread_count
    }

    pub fn keepalive(&self) -> (r: bool)
        ensures
            r == self@.keepalive,
    {
        self.keepalive
    }
}

// ---------------------------------------------------------------------------
// The connection

/// Where a connection stands.
#[derive(Debug, Clone, Copy, PartialEq, Eq, Structural)]
pub enum Phase {
    /// Reading and answering HTTP requests.
    Http,
    /// Exchanging WebSocket frames after an upgrade.
    WebSocket,
    Closed,
}

/// What the connection does after a response is sent.
#[derive(Debug, Clone, Copy, PartialEq, Eq, Structural)]
pub enum Next {
    KeepOpen,
    Close,
    /// Switch to WebSocket frames for the rest of the connection.
    Upgrade,
}

pub open spec fn phase_after(n: Next) -> Phase {
    match n {
        Next::KeepOpen => Phase::Http,
        Next::Close => Phase::Closed,
        Next::Upgrade => Phase::WebSocket,
    }
}

/// What the caller does next on the socket.
#[derive(Debug, Clone, PartialEq, Eq)]
pub enum Action {
    /// Write these bytes, then go on as `Next` says.
    Send(Vec<u8>, Next),
    /// Read this file and hand the outcome to `finish_file`.
    ReadFile(Vec<u8>),
}

pub enum ActionView {
    Send(Seq<u8>, Next),
    ReadFile(Seq<u8>),
}

impl View for Action {
    type V = ActionView;

    open spec fn view(&self) -> ActionView {
        match self {
            Action::Send(b, n) => ActionView::Send(b@, *n),
            Action::ReadFile(p) => ActionView::ReadFile(p@),
        }
    }
}

/// What the connection holds.
pub struct ConnView {
    pub mode: ServerFunction,
    pub keep_alive: bool,
    /// When the last request was handled, or the last frame bytes came, in
    /// milliseconds of the caller's monotonic clock.
    pub last_activity: u64,
    pub phase: Phase,
    /// WebSocket bytes received and not yet taken as a frame.
    pub pending: Seq<u8>,
}

/// More than the threshold has passed since the last activity.
pub open spec fn idle_expired(last: u64, now: u64) -> bool {
    now >= last && now - last > KEEP_ALIVE_THRESHOLD_MS
}

pub open spec fn with_phase(s: ConnView, p: Phase) -> ConnView {
    ConnView { phase: p, ..s }
}

pub open spec fn touched(s: ConnView, now: u64, p: Phase) -> ConnView {
    ConnView { last_activity: now, phase: p, ..s }
}

/// The state before a read: an idle connection is closed.
pub open spec fn idle_step(s: ConnView, now: u64) -> ConnView {
    if idle_expired(s.last_activity, now) {
        with_phase(s, Phase::Closed)
    } else {
        s
    }
}

/// After a request that could not be answered: close when keep-alive is off
/// or the connection has been idle too long.
pub open spec fn after_failure(s: ConnView, now: u64) -> Next {
    if !s.keep_alive || idle_expired(s.last_activity, now) {
        Next::Close
    } else {
        Next::KeepOpen
    }
}

/// After a request that was answered.
pub open spec fn after_success(keep_alive: bool) -> Next {
    if keep_alive {
        Next::KeepOpen
    } else {
        Next::Close
    }
}

pub open spec fn failed_request(s: ConnView, now: u64) -> (ConnView, ActionView) {
    (
        with_phase(s, phase_after(after_failure(s, now))),
        ActionView::Send(server_error_bytes(), after_failure(s, now)),
    )
}

/// The step for the bytes of one read in the HTTP phase.
pub open spec fn http_step(s: ConnView, data: Seq<u8>, now: u64) -> (ConnView, ActionView) {
    if data.len() == 0 {
        (with_phase(s, Phase::Closed), ActionView::Send(server_error_bytes(), Next::Close))
    } else {
        match parse_request(data) {
            Err(_) => failed_request(s, now),
            Ok(req) => if is_upgrade_request(req.headers) {
                match websocket_key(req.headers) {
                    Some(k) => (
                        touched(s, now, Phase::WebSocket),
                        ActionView::Send(upgrade_response(accept_value(k)), Next::Upgrade),
                    ),
                    None => failed_request(s, now),
                }
            } else {
                match response_plan(s.mode, s.keep_alive, req) {
                    PlanView::Respond(b) => (
                        touched(s, now, phase_after(after_success(s.keep_alive))),
                        ActionView::Send(b, after_success(s.keep_alive)),
                    ),
                    PlanView::ReadFile(p) => (touched(s, now, Phase::Http), ActionView::ReadFile(p)),
                }
            },
        }
    }
}

/// One accepted socket, from its first request to its close.
#[derive(Debug, PartialEq, Eq)]
pub struct HttpConnection {
    mode: ServerFunction,
    keep_alive: bool,
    last_activity: u64,
    phase: Phase,
    pending: Vec<u8>,
}

impl View for HttpConnection {
    type V = ConnView;

    closed spec fn view(&self) -> ConnView {
        ConnView {
            mode: self.mode,
            keep_alive: self.keep_alive,
            last_activity: self.last_activity,
            phase: self.phase,
            pending: self.pending@,
        }
    }
}

impl HttpConnection {
    #[verifier::type_invariant]
    closed spec fn mode_implemented(&self) -> bool {
        self.mode != ServerFunction::Proxy
    }

    /// A connection accepted at `now_ms`.
    pub fn new(config: &ServerConfig, now_ms: u64) -> (r: Self)
        ensures
            r@ == (ConnView {
                mode: config@.server_function,
                keep_alive: config@.keepalive,
                last_activity: now_ms,
                phase: Phase::Http,
                pending: Seq::<u8>::empty(),
            }),
    {
        HttpConnection {
            mode: config.get_server_function(),
            keep_alive: config.keepalive(),
            last_activity: now_ms,
            phase: Phase::Http,
            pending: Vec::new(),
        }
    }

    pub fn phase(&self) -> (r: Phase)
        ensures
            r == self@.phase,
    {
        self.phase
    }

    pub fn last_activity(&self) -> (r: u64)
        ensures
            r == self@.last_activity,
    {
        self.last_activity
    }

    /// Called before each read: closes a connection that has been idle for
    /// longer than the threshold, and says whether it did.
    pub fn close_if_idle(&mut self, now_ms: u64) -> (r: bool)
        ensures
            final(self)@ == idle_step(old(self)@, now_ms),
            r == idle_expired(old(self)@.last_activity, now_ms),
    {
        proof {
            use_type_invariant(&*self);
        }
        if now_ms >= self.last_activity && now_ms - self.last_activity > KEEP_ALIVE_THRESHOLD_MS {
            self.phase = Phase::Closed;
            true
        } else {
            false
        }
    }

    fn fail_request(&mut self, now_ms: u64) -> (r: Action)
        ensures
            (final(self)@, r@) == failed_request(old(self)@, now_ms),
    {
        proof {
            use_type_invariant(&*self);
        }
        let next = if !self.keep_alive || (now_ms >= self.last_activity && now_ms
            - self.last_activity > KEEP_ALIVE_THRESHOLD_MS) {
            Next::Close
        } else {
            Next::KeepOpen
        };
        self.phase = if next == Next::Close {
            Phase::Closed
        } else {
            Phase::Http
        };
        Action::Send(compose_server_error(), next)
    }

    /// Handles the bytes of one read in the HTTP phase.
    pub fn handle_http_read(&mut self, data: &[u8], now_ms: u64) -> (r: Action)
        requires
            old(self)@.phase == Phase::Http,
        ensures
            (final(self)@, r@) == http_step(old(self)@, data@, now_ms),
    {
        proof {
            use_type_invariant(&*self);
        }
        if data.len() == 0 {
            self.phase = Phase::Closed;
            return Action::Send(compose_server_error(), Next::Close);
        }
        let request = match parse_http_connection(data) {
            Ok(d) => d,
            Err(_) => {
                return self.fail_request(now_ms);
            },
        };
        if is_websocket_upgrade(&request) {
            match websocket_handshake(&request) {
                Handshake::Upgraded(b) => {
                    self.last_activity = now_ms;
                    self.phase = Phase::WebSocket;
                    Action::Send(b, Next::Upgrade)
                },
                Handshake::Refused(_) => self.fail_request(now_ms),
            }
        } else {
            match compose_http_response(self.mode, self.keep_alive, &request) {
                ResponsePlan::Respond(b) => {
                    let next = if self.keep_alive {
                        Next::KeepOpen
                    } else {
                        Next::Close
                    };
                    self.last_activity = now_ms;
                    self.phase = if self.keep_alive {
                        Phase::Http
                    } else {
                        Phase::Closed
                    };
                    Action::Send(b, next)
                },
                ResponsePlan::ReadFile(p) => {
                    self.last_activity = now_ms;
                    Action::ReadFile(p)
                },
            }
        }
    }

    /// The response once a requested file was read, or not.
    pub fn finish_file(&mut self, outcome: &FileOutcome) -> (r: (Vec<u8>, Next))
        requires
            old(self)@.phase == Phase::Http,
        ensures
            r.0@ == file_response(old(self)@.keep_alive, *outcome),
            r.1 == after_success(old(self)@.keep_alive),
            final(self)@ == with_phase(old(self)@, phase_after(after_success(old(self)@.keep_alive))),
    {
        proof {
            use_type_invariant(&*self);
        }
        let b = compose_file_response(self.keep_alive, outcome);
        if self.keep_alive {
            (b, Next::KeepOpen)
        } else {
            self.phase = Phase::Closed;
            (b, Next::Close)
        }
    }
}

/// Where the frame at the front of a buffer ends, once its header is there.
pub open spec fn frame_extent(b: Seq<u8>) -> Option<nat> {
    if b.len() < 2 {
        None
    } else {
        match length_header(b) {
            None => None,
            Some((hdr, len)) => Some(
                (hdr + (if b[1] & 128 != 0 {
                    4int
                } else {
                    0int
                }) + len) as nat,
            ),
        }
    }
}

/// What a frame from the client asks of the caller.
#[derive(Debug, Clone, PartialEq, Eq)]
pub enum WsEvent {
    /// No whole frame is buffered yet.
    NeedMore,
    /// A text or binary message for the mode's handler.
    Deliver(WebSocketOpCode, Vec<u8>),
    /// A ping and its payload; how to answer it is left to the caller.
    Ping(Vec<u8>),
    /// A frame that needs no action.
    Ignored(WebSocketOpCode),
    /// Close the connection: the client asked to, or broke the protocol.
    Close,
}

pub enum WsEventView {
    NeedMore,
    Deliver(WebSocketOpCode, Seq<u8>),
    Ping(Seq<u8>),
    Ignored(WebSocketOpCode),
    Close,
}

impl View for WsEvent {
    type V = WsEventView;

    open spec fn view(&self) -> WsEventView {
        match self {
            WsEvent::NeedMore => WsEventView::NeedMore,
            WsEvent::Deliver(op, d) => WsEventView::Deliver(*op, d@),
            WsEvent::Ping(d) => WsEventView::Ping(d@),
            WsEvent::Ignored(op) => WsEventView::Ignored(*op),
            WsEvent::Close => WsEventView::Close,
        }
    }
}

/// The state after bytes arrive in the WebSocket phase: they are buffered and
/// restart the idle timer; no bytes means the peer closed.
pub open spec fn ws_receive(s: ConnView, data: Seq<u8>, now: u64) -> ConnView {
    if data.len() == 0 {
        with_phase(s, Phase::Closed)
    } else {
        ConnView { pending: s.pending + data, last_activity: now, ..s }
    }
}

pub open spec fn with_pending(s: ConnView, p: Seq<u8>, phase: Phase) -> ConnView {
    ConnView { pending: p, phase, ..s }
}

/// No whole frame is left: wait for more bytes, or, with keep-alive off,
/// close now that the read was handled.
pub open spec fn no_whole_frame(s: ConnView) -> (ConnView, WsEventView) {
    if s.keep_alive {
        (s, WsEventView::NeedMore)
    } else {
        (with_phase(s, Phase::Closed), WsEventView::Close)
    }
}

/// Takes the frame at the front of the buffer, once it is whole, and
/// dispatches it by opcode. A client frame must be masked.
pub open spec fn ws_step(s: ConnView) -> (ConnView, WsEventView) {
    match frame_extent(s.pending) {
        None => no_whole_frame(s),
        Some(total) => if s.pending.len() < total {
            no_whole_frame(s)
        } else {
            let rest = s.pending.subrange(total as int, s.pending.len() as int);
            match decode_frame(s.pending.subrange(0, total as int)) {
                Err(_) => (with_pending(s, rest, Phase::Closed), WsEventView::Close),
                Ok(f) => if !f.mask || f.op_code == WebSocketOpCode::ConnectionClose {
                    (with_pending(s, rest, Phase::Closed), WsEventView::Close)
                } else if f.op_code == WebSocketOpCode::Text || f.op_code
                    == WebSocketOpCode::Binary {
                    (with_pending(s, rest, s.phase), WsEventView::Deliver(f.op_code, f.data))
                } else if f.op_code == WebSocketOpCode::Ping {
                    (with_pending(s, rest, s.phase), WsEventView::Ping(f.data))
                } else {
                    (with_pending(s, rest, s.phase), WsEventView::Ignored(f.op_code))
                },
            }
        },
    }
}

impl HttpConnection {
    /// Buffers the bytes of one read in the WebSocket phase.
    pub fn receive_websocket(&mut self, data: &[u8], now_ms: u64)
        requires
            old(self)@.phase == Phase::WebSocket,
        ensures
            final(self)@ == ws_receive(old(self)@, data@, now_ms),
    {
        proof {
            use_type_invariant(&*self);
        }
        if data.len() == 0 {
            self.phase = Phase::Closed;
        } else {
            let mut pending = vstd::slice::slice_to_vec(self.pending.as_slice());
            pending.extend_from_slice(data);
            assert(pending@ =~= old(self)@.pending + data@);
            self.pending = pending;
            self.last_activity = now_ms;
        }
    }

    fn no_whole_frame(&mut self) -> (r: WsEvent)
        ensures
            (final(self)@, r@) == no_whole_frame(old(self)@),
    {
        proof {
            use_type_invariant(&*self);
        }
        if self.keep_alive {
            WsEvent::NeedMore
        } else {
            self.phase = Phase::Closed;
            WsEvent::Close
        }
    }

    /// Takes the next whole frame from the buffer, if there is one. With
    /// keep-alive off, the connection closes once no whole frame is left.
    pub fn next_websocket_event(&mut self) -> (r: WsEvent)
        ensures
            (final(self)@, r@) == ws_step(old(self)@),
    {
        proof {
            use_type_invariant(&*self);
        }
        let b = self.pending.as_slice();
        if b.len() < 2 {
            return self.no_whole_frame();
        }
        let (hdr, len) = match read_length_header(b) {
            Some(h) => h,
            None => {
                return self.no_whole_frame();
            },
        };
        let key_len: u128 = if b[1] & 128 != 0 {
            4
        } else {
            0
        };
        let total: u128 = hdr as u128 + key_len + len as u128;
        if (b.len() as u128) < total {
            return self.no_whole_frame();
        }
        let t = total as usize;
        let frame = vstd::slice::slice_to_vec(&b[0..t]);
        let rest = vstd::slice::slice_to_vec(&b[t..b.len()]);
        let parsed = WebSocketFrame::parse_frame(frame);
        self.pending = rest;
        match parsed {
            Err(_) => {
                self.phase = Phase::Closed;
                WsEvent::Close
            },
            Ok(f) => {
                let op = f.opcode();
                if !f.is_masked() || op == WebSocketOpCode::ConnectionClose {
                    self.phase = Phase::Closed;
                    WsEvent::Close
                } else if op == WebSocketOpCode::Text || op == WebSocketOpCode::Binary {
                    WsEvent::Deliver(op, f.into_payload())
                } else if op == WebSocketOpCode::Ping {
                    WsEvent::Ping(f.into_payload())
                } else {
                    WsEvent::Ignored(op)
                }
            },
        }
    }
}

/// A connection that has been idle for longer than the threshold is closed
/// before it reads again; one that is not keeps its state. A request that
/// the tokenizer accepts restarts the idle timer: one that asks for no upgrade
/// leaves the connection open when keep-alive is on, and an upgrade request
/// with a key moves it to the WebSocket phase.
pub proof fn lemma_keep_alive_policy(s: ConnView, data: Seq<u8>, now: u64)
    requires
        s.phase == Phase::Http,
    ensures
        idle_expired(s.last_activity, now) ==> idle_step(s, now).phase == Phase::Closed,
        !idle_expired(s.last_activity, now) ==> idle_step(s, now) == s,
        (data.len() > 0 && parse_request(data) is Ok && !is_upgrade_request(
            parse_request(data)->Ok_0.headers,
        )) ==> {
            let (t, a) = http_step(s, data, now);
            &&& t.last_activity == now
            &&& s.keep_alive ==> t.phase == Phase::Http
            &&& s.keep_alive ==> !(a matches ActionView::Send(_, Next::Close))
        },
        (data.len() > 0 && parse_request(data) is Ok && is_upgrade_request(
            parse_request(data)->Ok_0.headers,
        ) && websocket_key(parse_request(data)->Ok_0.headers) is Some) ==> {
            let (t, a) = http_step(s, data, now);
            &&& t.last_activity == now
            &&& t.phase == Phase::WebSocket
            &&& a matches ActionView::Send(_, Next::Upgrade)
        },
{
}

/// The same policy after an upgrade: an idle connection is closed before it
/// reads again; bytes that arrive restart the idle timer; once no whole frame
/// is left, the connection waits for more with keep-alive on and closes with
/// it off.
pub proof fn lemma_websocket_keep_alive_policy(s: ConnView, data: Seq<u8>, now: u64)
    requires
        s.phase == Phase::WebSocket,
    ensures
        idle_expired(s.last_activity, now) ==> idle_step(s, now).phase == Phase::Closed,
        !idle_expired(s.last_activity, now) ==> idle_step(s, now) == s,
        data.len() > 0 ==> ws_receive(s, data, now).last_activity == now && ws_receive(
            s,
            data,
            now,
        ).phase == Phase::WebSocket,
        (frame_extent(s.pending) is None || s.pending.len() < frame_extent(s.pending)->Some_0)
            ==> ws_step(s) == if s.keep_alive {
            (s, WsEventView::NeedMore)
        } else {
            (with_phase(s, Phase::Closed), WsEventView::Close)
        },
{
}

} // verus!
