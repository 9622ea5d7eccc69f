//! The meta-variables of a FastCGI request, kept in `fastcgi_client::Params`.
//!
//! Verified code sees the collection only through `variables`, the map from
//! names to values that it holds, and through the setters below.

use fastcgi_client::Params;
use vstd::prelude::*;

verus! {

/// The set of meta-variables that goes out with a FastCGI request.
#[verifier::external_type_specification]
#[verifier::external_body]
pub struct ExParams<'a>(Params<'a>);

/// The variables that `params` holds, by name.
pub uninterp spec fn variables(params: Params<'static>) -> Map<Seq<char>, Seq<char>>;

/// The variables that every request starts with.
pub open spec fn default_variables() -> Map<Seq<char>, Seq<char>> {
    Map::<Seq<char>, Seq<char>>::empty().insert("GATEWAY_INTERFACE"@, "FastCGI/1.0"@).insert(
        "SERVER_SOFTWARE"@,
        "fastcgi-client-rs"@,
    ).insert("SERVER_PROTOCOL"@, "HTTP/1.1"@)
}

/// `Params::default`. Trusted: the new set holds the gateway interface, the
/// server software and the server protocol, and nothing else.
#[verifier::external_body]
pub(crate) fn default_params() -> (params: Params<'static>)
    ensures
        variables(params) == default_variables(),
{
    Params::default()
}

/// `Params::custom`. Trusted: the call sets the variable `name` to `value`
/// and leaves every other variable as it was.
#[verifier::external_body]
pub(crate) fn custom(params: Params<'static>, name: &str, value: &str) -> (set: Params<'static>)
    ensures
        variables(set) == variables(params).insert(name@, value@),
{
    params.custom(name.to_string(), value.to_string())
}

/// `Params::document_root`. Trusted: the call sets `DOCUMENT_ROOT` to `value` and leaves
/// every other variable as it was.
#[verifier::external_body]
pub(crate) fn document_root(params: Params<'static>, value: &str) -> (set: Params<'static>)
    ensures
        variables(set) == variables(params).insert("DOCUMENT_ROOT"@, value@),
{
    params.document_root(value.to_string())
}

/// `Params::request_method`. Trusted: the call sets `REQUEST_METHOD` to `value` and leaves
/// every other variable as it was.
#[verifier::external_body]
pub(crate) fn request_method(params: Params<'static>, value: &str) -> (set: Params<'static>)
    ensures
        variables(set) == variables(params).insert("REQUEST_METHOD"@, value@),
{
    params.request_method(value.to_string())
}

/// `Params::script_name`. Trusted: the call sets `SCRIPT_NAME` to `value` and leaves
/// every other variable as it was.
#[verifier::external_body]
pub(crate) fn script_name(params: Params<'static>, value: &str) -> (set: Params<'static>)
    ensures
        variables(set) == variables(params).insert("SCRIPT_NAME"@, value@),
{
    params.script_name(value.to_string())
}

/// `Params::script_filename`. Trusted: the call sets `SCRIPT_FILENAME` to `value` and leaves
/// every other variable as it was.
#[verifier::external_body]
pub(crate) fn script_filename(params: Params<'static>, value: &str) -> (set: Params<'static>)
    ensures
        variables(set) == variables(params).insert("SCRIPT_FILENAME"@, value@),
{
    params.script_filename(value.to_string())
}

/// `Params::server_name`. Trusted: the call sets `SERVER_NAME` to `value` and leaves
/// every other variable as it was.
#[verifier::external_body]
pub(crate) fn server_name(params: Params<'static>, value: &str) -> (set: Params<'static>)
    ensures
        variables(set) == variables(params).insert("SERVER_NAME"@, value@),
{
    params.server_name(value.to_string())
}

/// `Params::server_addr`. Trusted: the call sets `SERVER_ADDR` to `value` and leaves
/// every other variable as it was.
#[verifier::external_body]
pub(crate) fn server_addr(params: Params<'static>, value: &str) -> (set: Params<'static>)
    ensures
        variables(set) == variables(params).insert("SERVER_ADDR"@, value@),
{
    params.server_addr(value.to_string())
}

/// `Params::content_type`. Trusted: the call sets `CONTENT_TYPE` to `value` and leaves
/// every other variable as it was.
#[verifier::external_body]
pub(crate) fn content_type(params: Params<'static>, value: &str) -> (set: Params<'static>)
    ensures
        variables(set) == variables(params).insert("CONTENT_TYPE"@, value@),
{
    params.content_type(value.to_string())
}

/// `Params::request_uri`. Trusted: the call sets `REQUEST_URI` to `value` and leaves
/// every other variable as it was.
#[verifier::external_body]
pub(crate) fn request_uri(params: Params<'static>, value: &str) -> (set: Params<'static>)
    ensures
        variables(set) == variables(params).insert("REQUEST_URI"@, value@),
{
    params.request_uri(value.to_string())
}

/// `Params::query_string`. Trusted: the call sets `QUERY_STRING` to `value` and leaves
/// every other variable as it was.
#[verifier::external_body]
pub(crate) fn query_string(params: Params<'static>, value: &str) -> (set: Params<'static>)
    ensures
        variables(set) == variables(params).insert("QUERY_STRING"@, value@),
{
    params.query_string(value.to_string())
}

} // verus!
