//! The policy of the worker pool: what a pooled connection remembers, when
//! it counts as broken, and how it is validated before reuse.

use crate::params::{
    custom, default_params, default_variables, request_method, script_filename, script_name,
    server_name, variables,
};
use crate::response::{body_offset, header_scan, parse_headers, BackendResponse, MAX_HEADERS};
use fastcgi_client::Params;
use vstd::prelude::*;
use vstd::slice::slice_subrange;
use vstd::string::StringExecFns;

verus! {

/// Why a connection is not handed out.
pub enum ManagerError {
    /// The transport to the worker could not be opened.
    Io,
    /// The probe exchange failed.
    Client,
    /// The worker's answer to the probe has a header block that does not
    /// parse.
    Headers(httparse::Error),
    /// The worker answered the probe with something else than `pong`.
    Ping,
    /// The connection was seen to be closed.
    Closed,
}

/// How the transport failed during an exchange.
#[derive(Clone, Copy, PartialEq, Eq, Structural)]
pub enum IoFailure {
    /// The peer has closed its end.
    BrokenPipe,
    /// The stream ended in the middle of a record.
    UnexpectedEof,
    /// Any other I/O failure: a timeout, an interruption.
    Other,
}

/// How an exchange with a worker failed.
#[derive(Clone, Copy, PartialEq, Eq, Structural)]
pub enum ExchangeError {
    /// The transport failed.
    Io(IoFailure),
    /// The worker broke the protocol or refused the request.
    Protocol,
}

/// The failures that show the worker to be gone.
pub open spec fn is_disconnect(error: ExchangeError) -> bool {
    error == ExchangeError::Io(IoFailure::BrokenPipe) || error == ExchangeError::Io(
        IoFailure::UnexpectedEof,
    )
}

/// Whether an exchange that ended as `outcome` shows the worker to be gone.
pub open spec fn shows_disconnect(outcome: Result<BackendResponse, ExchangeError>) -> bool {
    outcome matches Err(error) && is_disconnect(error)
}

/// What the pool keeps of one connection besides its transport.
pub struct Conn {
    ping_path: Option<String>,
    closed: bool,
}

/// The mathematical content of a `Conn`.
pub struct ConnView {
    pub ping_path: Option<Seq<char>>,
    pub closed: bool,
}

impl ConnView {
    /// The connection after an exchange: closed if it was, or if the
    /// exchange showed the worker to be gone.
    pub open spec fn settled(self, disconnect: bool) -> ConnView {
        ConnView { ping_path: self.ping_path, closed: self.closed || disconnect }
    }

    /// The connection after a run of exchanges.
    pub open spec fn settled_all(self, disconnects: Seq<bool>) -> ConnView
        decreases disconnects.len(),
    {
        if disconnects.len() == 0 {
            self
        } else {
            self.settled_all(disconnects.drop_last()).settled(disconnects.last())
        }
    }
}

impl View for Conn {
    type V = ConnView;

    closed spec fn view(&self) -> ConnView {
        ConnView {
            ping_path: match self.ping_path {
                Some(path) => Some(path@),
                None => None,
            },
            closed: self.closed,
        }
    }
}

impl Conn {
    /// A fresh connection: not closed.
    pub fn new(ping_path: Option<String>) -> (conn: Conn)
        ensures
            !conn@.closed,
            conn@.ping_path == match ping_path {
                Some(path) => Some(path@),
                None => None,
            },
    {
        Conn { ping_path, closed: false }
    }

    /// Whether the connection has been seen to be closed.
    pub fn is_closed(&self) -> (closed: bool)
        ensures
            closed == self@.closed,
    {
        self.closed
    }

    /// The path that is requested to probe the worker, if probing is on.
    pub fn ping_path(&self) -> (path: Option<&str>)
        ensures
            match path {
                Some(text) => self@.ping_path == Some(text@),
                None => self@.ping_path is None,
            },
    {
        match &self.ping_path {
            Some(path) => Some(path.as_str()),
            None => None,
        }
    }

    /// Takes note of how an exchange over this connection ended, and hands
    /// the outcome on. A broken pipe or an unexpected end of the stream
    /// closes the connection for good; no other outcome changes it.
    pub fn settle(&mut self, outcome: Result<BackendResponse, ExchangeError>) -> (same: Result<
        BackendResponse,
        ExchangeError,
    >)
        ensures
            same == outcome,
            final(self)@ == old(self)@.settled(shows_disconnect(outcome)),
    {
        match &outcome {
            Err(ExchangeError::Io(IoFailure::BrokenPipe)) => {
                self.closed = true;
            },
            Err(ExchangeError::Io(IoFailure::UnexpectedEof)) => {
                self.closed = true;
            },
            _ => {},
        }
        outcome
    }
}

/// A connection once closed stays closed, whatever exchanges follow.
pub proof fn lemma_closed_stays_closed(conn: ConnView, disconnects: Seq<bool>)
    requires
        conn.closed,
    ensures
        conn.settled_all(disconnects).closed,
    decreases disconnects.len(),
{
    if disconnects.len() > 0 {
        lemma_closed_stays_closed(conn, disconnects.drop_last());
    }
}

/// The variables of the request that probes a worker at `path`.
pub open spec fn ping_variables(path: Seq<char>) -> Map<Seq<char>, Seq<char>> {
    default_variables().insert("REQUEST_METHOD"@, "GET"@).insert(
        "SERVER_NAME"@,
        "localhost"@,
    ).insert("SERVER_PORT"@, "8000"@).insert("SCRIPT_NAME"@, path).insert("SCRIPT_FILENAME"@, path)
}

/// The request that probes a worker: a `GET` of `path`, without a body.
pub fn ping_params(path: &str) -> (params: Params<'static>)
    ensures
        variables(params) == ping_variables(path@),
{
    let params = request_method(default_params(), "GET");
    let params = custom(server_name(params, "localhost"), "SERVER_PORT", "8000");
    script_filename(script_name(params, path), path)
}

/// What a live worker answers to a probe.
pub open spec fn pong() -> Seq<u8> {
    seq![0x70u8, 0x6fu8, 0x6eu8, 0x67u8]
}

/// What validation does first.
pub enum Check {
    /// The connection is good as it is.
    Accept,
    /// The connection is refused without any exchange.
    Reject(ManagerError),
    /// The worker is to be asked with these variables and no body.
    Probe(Params<'static>),
}

/// What the probe of a connection comes to, given how the exchange ended.
pub open spec fn probe_verdict(outcome: Result<BackendResponse, ExchangeError>) -> Result<
    (),
    ManagerError,
> {
    match outcome {
        Err(_) => Err(ManagerError::Client),
        Ok(response) => match header_scan(response.output(), MAX_HEADERS as int) {
            Err(error) => Err(ManagerError::Headers(error)),
            Ok((end, _)) => if response.output().subrange(
                body_offset(end),
                response.output().len() as int,
            ) == pong() {
                Ok(())
            } else {
                Err(ManagerError::Ping)
            },
        },
    }
}

/// Creates pooled connections and decides on their reuse.
pub struct Manager {
    addr: String,
    ping_path: Option<String>,
}

/// The mathematical content of a `Manager`.
pub struct ManagerView {
    pub addr: Seq<char>,
    pub ping_path: Option<Seq<char>>,
}

impl View for Manager {
    type V = ManagerView;

    closed spec fn view(&self) -> ManagerView {
        ManagerView {
            addr: self.addr@,
            ping_path: match self.ping_path {
                Some(path) => Some(path@),
                None => None,
            },
        }
    }
}

impl Manager {
    /// A manager for the worker at `addr`, without probing.
    pub fn new(addr: String) -> (manager: Manager)
        ensures
            manager@ == (ManagerView { addr: addr@, ping_path: None }),
    {
        Manager { addr, ping_path: None }
    }

    /// The same manager, probing workers at `path`.
    pub fn with_ping(self, path: String) -> (manager: Manager)
        ensures
            manager@ == (ManagerView { addr: self@.addr, ping_path: Some(path@) }),
    {
        Manager { addr: self.addr, ping_path: Some(path) }
    }

    /// The address of the worker.
    pub fn addr(&self) -> (addr: &str)
        ensures
            addr@ == self@.addr,
    {
        self.addr.as_str()
    }

    /// What the pool keeps of a connection that has just been opened.
    pub fn connection(&self) -> (conn: Conn)
        ensures
            conn@ == (ConnView { ping_path: self@.ping_path, closed: false }),
    {
        match &self.ping_path {
            Some(path) => Conn::new(Some(String::from_str(path.as_str()))),
            None => Conn::new(None),
        }
    }

    /// First step of validating a connection before reuse: a closed one is
    /// refused at once, one with a probe path is to be probed, any other is
    /// accepted.
    pub fn begin_validation(&self, conn: &Conn) -> (check: Check)
        ensures
            match check {
                Check::Accept => !conn@.closed && conn@.ping_path is None,
                Check::Reject(error) => conn@.closed && error is Closed,
                Check::Probe(params) => {
                    &&& !conn@.closed
                    &&& conn@.ping_path matches Some(path)
                    &&& variables(params) == ping_variables(path)
                },
            },
    {
        if conn.is_closed() {
            return Check::Reject(ManagerError::Closed);
        }
        match conn.ping_path() {
            Some(path) => Check::Probe(ping_params(path)),
            None => Check::Accept,
        }
    }

    /// Last step of validating a connection: takes note of how the probe
    /// exchange ended, and accepts the connection exactly when the worker
    /// answered with a body of `pong`.
    pub fn finish_validation(
        &self,
        conn: &mut Conn,
        outcome: Result<BackendResponse, ExchangeError>,
    ) -> (verdict: Result<(), ManagerError>)
        ensures
            final(conn)@ == old(conn)@.settled(shows_disconnect(outcome)),
            verdict == probe_verdict(outcome),
    {
        let response = match conn.settle(outcome) {
            Ok(response) => response,
            Err(_) => {
                return Err(ManagerError::Client);
            },
        };
        let stdout = match response.stdout {
            Some(bytes) => bytes,
            None => Vec::new(),
        };
        let offset = match parse_headers::<MAX_HEADERS>(stdout.as_slice()) {
            Ok((offset, _)) => offset,
            Err(error) => {
                return Err(ManagerError::Headers(error));
            },
        };
        if is_pong(slice_subrange(stdout.as_slice(), offset, stdout.len())) {
            Ok(())
        } else {
            Err(ManagerError::Ping)
        }
    }

    /// Whether the pool must drop the connection instead of keeping it.
    pub fn has_broken(&self, conn: &Conn) -> (broken: bool)
        ensures
            broken == conn@.closed,
    {
        conn.is_closed()
    }
}

/// Whether `body` is the answer of a live worker.
pub fn is_pong(body: &[u8]) -> (yes: bool)
    ensures
        yes == (body@ == pong()),
{
    let yes = body.len() == 4 && body[0] == 0x70 && body[1] == 0x6f && body[2] == 0x6e && body[3]
        == 0x67;
    proof {
        if yes {
            assert(body@ =~= pong());
        }
    }
    yes
}

} // verus!
