//! The gateway for one document root: what it does with a request, and the
//! answer to whatever the request ran into.

use crate::params::variables;
use crate::request::{
    candidate, candidate_path, find_file, meta_variables, resolution, translate as describe,
    Probe, RequestHead, ResolvedTarget, TargetView,
};
use crate::response::{
    translate as answer, translation, BackendResponse, HttpResponse, ResponseView,
};
use fastcgi_client::Params;
use http::header::{InvalidHeaderName, InvalidHeaderValue};
use vstd::prelude::*;
use vstd::slice::slice_to_vec;
use vstd::string::StringSliceAdditionalSpecFns;

verus! {

/// What can go wrong between taking a request and answering it.
pub enum ServiceError {
    /// The transport to a worker, or a file, failed.
    Io,
    /// No worker connection could be had from the pool.
    Pool,
    /// The exchange with the worker broke down.
    FastCgi,
    /// The task that ran the exchange did not finish.
    Join,
    /// The worker's header block does not parse.
    Headers(httparse::Error),
    /// The worker sent a header under a name that HTTP does not allow.
    HeaderName(InvalidHeaderName),
    /// The worker sent a header value that HTTP does not allow.
    HeaderValue(InvalidHeaderValue),
}

/// Status of the answer to a request that failed.
pub const FAILURE_STATUS: u16 = 500;

/// What the answer to a request that failed says.
pub const FAILURE_TEXT: &'static str = "internal server error";

/// Body of the answer to a request that failed: the bytes of its text.
pub open spec fn failure_body() -> Seq<u8> {
    FAILURE_TEXT.spec_bytes()
}

/// The answer to every request that failed: status 500, no headers, and a
/// body that says no more than "internal server error".
pub open spec fn failure_response() -> ResponseView {
    ResponseView { status: FAILURE_STATUS, headers: Seq::empty(), body: failure_body() }
}

/// Makes the answer to a request out of what handling it came to. A
/// response passes through untouched; any error becomes the same answer,
/// which tells nothing of the error.
pub fn handle_result(result: Result<HttpResponse, ServiceError>) -> (response: HttpResponse)
    ensures
        response@ == match result {
            Ok(made) => made@,
            Err(_) => failure_response(),
        },
{
    match result {
        Ok(response) => response,
        Err(_) => {
            let response = HttpResponse {
                status: FAILURE_STATUS,
                headers: Vec::new(),
                body: slice_to_vec(FAILURE_TEXT.as_bytes()),
            };
            proof {
                assert(response@.headers =~= Seq::empty());
            }
            response
        },
    }
}

/// What the gateway does with a request once it is resolved.
pub enum Step {
    /// Hand the file at this path to the static-file collaborator.
    Serve(String),
    /// Take a connection from the pool and run, to its end and apart from
    /// the request's own task, the exchange that these variables describe.
    Proxy { script: String, params: Params<'static> },
}

/// The gateway for one document root.
pub struct PhpService {
    root: String,
}

impl View for PhpService {
    type V = Seq<char>;

    closed spec fn view(&self) -> Seq<char> {
        self.root@
    }
}

impl PhpService {
    /// A gateway that serves what lies below `root`.
    pub fn new(root: String) -> (service: PhpService)
        ensures
            service@ == root@,
    {
        PhpService { root }
    }

    /// The document root.
    pub fn root(&self) -> (root: &str)
        ensures
            root@ == self@,
    {
        self.root.as_str()
    }

    /// The path that a request is about, to be probed before the request is
    /// dispatched.
    pub fn candidate(&self, head: &RequestHead) -> (path: String)
        ensures
            path@ == candidate(self@, head@.path()),
    {
        candidate_path(self.root.as_str(), head.path())
    }

    /// Resolves a request and says what to do with it: serve the file that
    /// it names, or ask a worker to run the script that answers for it.
    pub fn dispatch(&self, head: &RequestHead, probe: Probe) -> (step: Step)
        ensures
            match resolution(self@, head@.path(), probe) {
                TargetView::Static(path) => step matches Step::Serve(file) && file@ == path,
                TargetView::Script(path) => {
                    &&& step matches Step::Proxy { script, params }
                    &&& script@ == path
                    &&& variables(params) == meta_variables(self@, path, head@)
                },
            },
    {
        match find_file(self.root.as_str(), head.path(), probe) {
            ResolvedTarget::Static(file) => Step::Serve(file),
            ResolvedTarget::Script(script) => {
                let params = describe(self.root.as_str(), script.as_str(), head);
                Step::Proxy { script, params }
            },
        }
    }

    /// Makes the answer to a proxied request out of what its exchange came
    /// to: the worker's answer translated, or the fixed answer to a failure
    /// where the exchange or the translation failed.
    pub fn respond(&self, outcome: Result<BackendResponse, ServiceError>) -> (response:
        HttpResponse)
        ensures
            response@ == match outcome {
                Ok(output) => match translation(output.output()) {
                    Ok(made) => made,
                    Err(_) => failure_response(),
                },
                Err(_) => failure_response(),
            },
    {
        match outcome {
            Ok(output) => handle_result(answer(output)),
            Err(error) => handle_result(Err(error)),
        }
    }
}

} // verus!
