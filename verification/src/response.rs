//! Translation of a worker's raw output into an HTTP response.
//!
//! A worker answers with a CGI-style header block, a blank line and a body.
//! The block is read by `httparse`; names and values are checked by `http`.

use crate::header::{
    field_views, header_name_from_str, header_value_from_bytes, is_value, normalized_name,
    HeaderField,
};
use crate::service::ServiceError;
use vstd::prelude::*;
use vstd::slice::{slice_subrange, slice_to_vec};
use vstd::string::StringExecFns;

verus! {

/// How many headers a worker may send.
pub const MAX_HEADERS: usize = 64;

/// Status of a response whose header block names none.
pub const DEFAULT_STATUS: u16 = 200;

/// Why `httparse` gave up on a header block.
#[verifier::external_type_specification]
#[verifier::external_body]
pub struct ExHeaderBlockError(httparse::Error);

/// One slot of a parsed header block, as the worker wrote it.
pub struct RawHeader {
    pub name: String,
    pub value: Vec<u8>,
}

impl View for RawHeader {
    type V = (Seq<char>, Seq<u8>);

    open spec fn view(&self) -> (Seq<char>, Seq<u8>) {
        (self.name@, self.value@)
    }
}

/// The number that three ASCII digits spell, the first of them not `0`.
pub open spec fn status_code_of(token: Seq<u8>) -> Option<u16> {
    if token.len() == 3
        && 0x31 <= token[0] <= 0x39
        && 0x30 <= token[1] <= 0x39
        && 0x30 <= token[2] <= 0x39 {
        Some(((token[0] - 0x30) * 100 + (token[1] - 0x30) * 10 + (token[2] - 0x30)) as u16)
    } else {
        None
    }
}

/// The status that the value of a `Status` header announces: the code spelled
/// by what stands before its first space. A value without a space, or with
/// anything but a three-digit code before it, announces none.
pub open spec fn status_of(value: Seq<u8>) -> Option<u16> {
    match value.index_of_first(0x20u8) {
        Some(space) => status_code_of(value.subrange(0, space)),
        None => None,
    }
}

/// `http::StatusCode::from_bytes`, with the code handed back as a number.
/// Trusted: the call accepts exactly three ASCII digits whose first is not
/// `0`, and yields the number they spell.
#[verifier::external_body]
fn status_code_from_bytes(token: &[u8]) -> (code: Option<u16>)
    ensures
        code == status_code_of(token@),
{
    http::StatusCode::from_bytes(token).ok().map(|status| status.as_u16())
}

/// Position of the first space in `value`, if it holds one.
fn first_space(value: &[u8]) -> (found: Option<usize>)
    ensures
        match found {
            Some(at) => at < value@.len() && value@.index_of_first(0x20u8) == Some(at as int),
            None => value@.index_of_first(0x20u8) is None,
        },
{
    let mut at: usize = 0;
    while at < value.len()
        invariant
            at <= value.len(),
            forall|k: int| 0 <= k < at ==> value@[k] != 0x20u8,
        decreases value.len() - at,
    {
        if value[at] == 0x20u8 {
            proof {
                value@.index_of_first_ensures(0x20u8);
            }
            return Some(at);
        }
        at += 1;
    }
    proof {
        value@.index_of_first_ensures(0x20u8);
    }
    None
}

/// Reads the status code out of a `Status` header.
pub fn parse_status(header: &RawHeader) -> (status: Option<u16>)
    ensures
        status == status_of(header.value@),
{
    match first_space(header.value.as_slice()) {
        Some(space) => {
            let token = slice_subrange(header.value.as_slice(), 0, space);
            status_code_from_bytes(token)
        },
        None => None,
    }
}

/// The views of a run of header slots.
pub open spec fn slot_views(slots: Seq<RawHeader>) -> Seq<(Seq<char>, Seq<u8>)> {
    slots.map_values(|slot: RawHeader| slot@)
}

/// What `httparse::parse_headers` makes of `input` when it is given `limit`
/// empty slots to fill: the error it reports, or else the offset just behind
/// the blank line (none if the input ended before one) and the slots as it
/// left them, filled ones first.
pub uninterp spec fn header_scan(input: Seq<u8>, limit: int) -> Result<
    (Option<int>, Seq<(Seq<char>, Seq<u8>)>),
    httparse::Error,
>;

/// `httparse::parse_headers` on `N` empty slots, with every slot handed back
/// as owned text and bytes. Trusted: the outcome is `header_scan`; the slots
/// that come back are the `N` that went in; an offset lies within the input.
#[verifier::external_body]
fn scan_header_block<const N: usize>(input: &[u8]) -> (scan: Result<
    (Option<usize>, Vec<RawHeader>),
    httparse::Error,
>)
    ensures
        match scan {
            Ok((end, slots)) => {
                &&& header_scan(input@, N as int) == Ok::<_, httparse::Error>(
                    (
                        match end {
                            Some(offset) => Some(offset as int),
                            None => None,
                        },
                        slot_views(slots@),
                    ),
                )
                &&& slots@.len() == N
                &&& end matches Some(offset) ==> offset <= input@.len()
            },
            Err(error) => header_scan(input@, N as int) == Err::<
                (Option<int>, Seq<(Seq<char>, Seq<u8>)>),
                _,
            >(error),
        },
{
    let mut slots = vec![httparse::EMPTY_HEADER; N];
    let end = match httparse::parse_headers(input, &mut slots)? {
        httparse::Status::Complete((offset, _)) => Some(offset),
        httparse::Status::Partial => None,
    };
    let owned = slots.iter().map(|slot| RawHeader {
        name: slot.name.to_string(),
        value: slot.value.to_vec(),
    });
    Ok((end, owned.collect()))
}

/// Where the body starts once a header block has been scanned: behind the
/// blank line, or at the very start when the block never ended.
pub open spec fn body_offset(end: Option<int>) -> int {
    match end {
        Some(offset) => offset,
        None => 0,
    }
}

/// Splits a worker's output into header slots and the offset of the body.
///
/// At most `N` headers are accepted. An output whose header block never ends
/// is no error: its body starts at offset zero.
pub fn parse_headers<const N: usize>(input: &[u8]) -> (parsed: Result<
    (usize, Vec<RawHeader>),
    httparse::Error,
>)
    ensures
        match header_scan(input@, N as int) {
            Ok((end, slots)) => {
                &&& parsed matches Ok((offset, headers))
                &&& offset == body_offset(end)
                &&& offset <= input@.len()
                &&& slot_views(headers@) == slots
            },
            Err(error) => parsed == Err::<(usize, Vec<RawHeader>), _>(error),
        },
{
    match scan_header_block::<N>(input) {
        Ok((Some(offset), headers)) => Ok((offset, headers)),
        Ok((None, headers)) => Ok((0, headers)),
        Err(error) => Err(error),
    }
}

/// What a worker sent back for one request.
pub struct BackendResponse {
    pub stdout: Option<Vec<u8>>,
    pub stderr: Option<Vec<u8>>,
}

impl BackendResponse {
    /// The worker's standard output; nothing where it wrote none.
    pub open spec fn output(self) -> Seq<u8> {
        match self.stdout {
            Some(bytes) => bytes@,
            None => Seq::empty(),
        }
    }
}

/// An HTTP response ready to be sent.
pub struct HttpResponse {
    pub status: u16,
    pub headers: Vec<HeaderField>,
    pub body: Vec<u8>,
}

/// The mathematical content of an `HttpResponse`.
pub struct ResponseView {
    pub status: u16,
    pub headers: Seq<(Seq<char>, Seq<u8>)>,
    pub body: Seq<u8>,
}

impl View for HttpResponse {
    type V = ResponseView;

    open spec fn view(&self) -> ResponseView {
        ResponseView {
            status: self.status,
            headers: field_views(self.headers@),
            body: self.body@,
        }
    }
}

/// Why a worker's output is turned down.
pub enum Rejection {
    /// The header block does not parse.
    Block(httparse::Error),
    /// A header has a name that HTTP refuses.
    Name,
    /// A header has a value that HTTP refuses.
    Value,
}

/// Status and headers gathered from the slots walked so far.
pub struct Head {
    pub status: u16,
    pub headers: Seq<(Seq<char>, Seq<u8>)>,
}

/// The head after one more slot: an empty name changes nothing, `Status`
/// sets the status where it spells one, anything else is appended under its
/// normalized name once name and value have been accepted, the name first.
pub open spec fn take_slot(head: Head, slot: (Seq<char>, Seq<u8>)) -> Result<Head, Rejection> {
    if slot.0.len() == 0 {
        Ok(head)
    } else if slot.0 == "Status"@ {
        Ok(
            Head {
                status: match status_of(slot.1) {
                    Some(code) => code,
                    None => head.status,
                },
                headers: head.headers,
            },
        )
    } else {
        match normalized_name(slot.0) {
            None => Err(Rejection::Name),
            Some(name) => if is_value(slot.1) {
                Ok(Head { status: head.status, headers: head.headers.push((name, slot.1)) })
            } else {
                Err(Rejection::Value)
            },
        }
    }
}

/// The head that a run of slots yields when they are walked in order, or the
/// rejection of the first slot that is turned down.
pub open spec fn walk_slots(slots: Seq<(Seq<char>, Seq<u8>)>) -> Result<Head, Rejection>
    decreases slots.len(),
{
    if slots.len() == 0 {
        Ok(Head { status: DEFAULT_STATUS, headers: Seq::empty() })
    } else {
        match walk_slots(slots.drop_last()) {
            Ok(head) => take_slot(head, slots.last()),
            Err(rejection) => Err(rejection),
        }
    }
}

/// The HTTP response that a worker's output stands for.
pub open spec fn translation(output: Seq<u8>) -> Result<ResponseView, Rejection> {
    match header_scan(output, MAX_HEADERS as int) {
        Err(error) => Err(Rejection::Block(error)),
        Ok((end, slots)) => composition(
            slots,
            output.subrange(body_offset(end), output.len() as int),
        ),
    }
}

/// The error that reports a rejection.
pub open spec fn reports(error: ServiceError, rejection: Rejection) -> bool {
    match rejection {
        Rejection::Block(cause) => error == ServiceError::Headers(cause),
        Rejection::Name => error is HeaderName,
        Rejection::Value => error is HeaderValue,
    }
}

/// Walks the slots of a header block in order and gathers status and
/// headers, or fails at the first header that HTTP refuses.
pub fn collect_head(slots: &Vec<RawHeader>) -> (collected: Result<
    (u16, Vec<HeaderField>),
    ServiceError,
>)
    ensures
        match walk_slots(slot_views(slots@)) {
            Ok(head) => {
                &&& collected matches Ok((status, headers))
                &&& status == head.status
                &&& field_views(headers@) == head.headers
            },
            Err(rejection) => {
                &&& collected matches Err(error)
                &&& rejection !is Block
                &&& reports(error, rejection)
            },
        },
{
    let status_name = String::from_str("Status");
    let mut status = DEFAULT_STATUS;
    let mut headers: Vec<HeaderField> = Vec::new();
    let mut i: usize = 0;
    proof {
        assert(field_views(headers@) =~= Seq::empty());
    }
    while i < slots.len()
        invariant
            i <= slots.len(),
            status_name@ == "Status"@,
            walk_slots(slot_views(slots@).take(i as int)) == Ok::<Head, Rejection>(
                Head { status, headers: field_views(headers@) },
            ),
        decreases slots.len() - i,
    {
        let slot = &slots[i];
        proof {
            assert(slot_views(slots@).take(i + 1).drop_last() =~= slot_views(slots@).take(
                i as int,
            ));
        }
        if slot.name.as_str().is_empty() {
        } else if slot.name == status_name {
            if let Some(code) = parse_status(slot) {
                status = code;
            }
        } else {
            let name = match header_name_from_str(slot.name.as_str()) {
                Ok(name) => name,
                Err(error) => {
                    proof {
                        lemma_rejection_stays(slot_views(slots@), i + 1);
                    }
                    return Err(ServiceError::HeaderName(error));
                },
            };
            if let Err(error) = header_value_from_bytes(slot.value.as_slice()) {
                proof {
                    lemma_rejection_stays(slot_views(slots@), i + 1);
                }
                return Err(ServiceError::HeaderValue(error));
            }
            let ghost kept = field_views(headers@);
            headers.push(HeaderField { name, value: slice_to_vec(slot.value.as_slice()) });
            proof {
                assert(field_views(headers@) =~= kept.push(
                    (normalized_name(slot.name@)->0, slot.value@),
                ));
            }
        }
        i += 1;
    }
    proof {
        assert(slot_views(slots@).take(i as int) =~= slot_views(slots@));
    }
    Ok((status, headers))
}

/// The header that a slot gives: none for an empty slot and for `Status`,
/// and for any other the slot's value under its normalized name.
pub open spec fn forwarded(slot: (Seq<char>, Seq<u8>)) -> Option<(Seq<char>, Seq<u8>)> {
    if slot.0.len() == 0 || slot.0 == "Status"@ {
        None
    } else {
        Some((normalized_name(slot.0)->0, slot.1))
    }
}

/// Where a run of slots is accepted, its headers are what the slots give,
/// one by one and in their order: no header is dropped, none replaces an
/// earlier one of its name, and `Status` is not among them.
pub proof fn lemma_headers_follow_slots(slots: Seq<(Seq<char>, Seq<u8>)>)
    requires
        walk_slots(slots) is Ok,
    ensures
        walk_slots(slots)->Ok_0.headers == slots.filter_map(
            |slot: (Seq<char>, Seq<u8>)| forwarded(slot),
        ),
    decreases slots.len(),
{
    if slots.len() > 0 {
        lemma_headers_follow_slots(slots.drop_last());
    }
}

/// The response that a scanned header block and a body make.
pub open spec fn composition(slots: Seq<(Seq<char>, Seq<u8>)>, body: Seq<u8>) -> Result<
    ResponseView,
    Rejection,
> {
    match walk_slots(slots) {
        Ok(head) => Ok(ResponseView { status: head.status, headers: head.headers, body }),
        Err(rejection) => Err(rejection),
    }
}

/// Makes the response out of the slots of a header block and the body that
/// followed it.
pub fn compose(slots: &Vec<RawHeader>, body: Vec<u8>) -> (composed: Result<
    HttpResponse,
    ServiceError,
>)
    ensures
        match composition(slot_views(slots@), body@) {
            Ok(response) => composed matches Ok(made) && made@ == response,
            Err(rejection) => composed matches Err(error) && reports(error, rejection),
        },
{
    match collect_head(slots) {
        Ok((status, headers)) => Ok(HttpResponse { status, headers, body }),
        Err(error) => Err(error),
    }
}

/// Turns a worker's answer into an HTTP response.
///
/// The status is 200 unless a `Status` header spells another; every other
/// header is kept, in order and with repeats; the body is what follows the
/// header block, or the whole output where the block never ends.
pub fn translate(input: BackendResponse) -> (translated: Result<HttpResponse, ServiceError>)
    ensures
        match translation(input.output()) {
            Ok(response) => translated matches Ok(made) && made@ == response,
            Err(rejection) => translated matches Err(error) && reports(error, rejection),
        },
{
    let stdout = match input.stdout {
        Some(bytes) => bytes,
        None => Vec::new(),
    };
    let (offset, slots) = match parse_headers::<MAX_HEADERS>(stdout.as_slice()) {
        Ok(parsed) => parsed,
        Err(error) => {
            return Err(ServiceError::Headers(error));
        },
    };
    compose(&slots, slice_to_vec(slice_subrange(stdout.as_slice(), offset, stdout.len())))
}

/// Once a prefix of the slots is turned down, so is the whole run, and for
/// the same reason.
proof fn lemma_rejection_stays(slots: Seq<(Seq<char>, Seq<u8>)>, n: int)
    requires
        0 <= n <= slots.len(),
        walk_slots(slots.take(n)) is Err,
    ensures
        walk_slots(slots) == walk_slots(slots.take(n)),
    decreases slots.len() - n,
{
    if n < slots.len() {
        assert(slots.take(n + 1).drop_last() =~= slots.take(n));
        lemma_rejection_stays(slots, n + 1);
    } else {
        assert(slots.take(n) =~= slots);
    }
}

} // verus!
