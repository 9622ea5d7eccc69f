//! From an HTTP request to what a worker is asked: which file the request
//! names, and the meta-variables that describe it.

use crate::header::{
    field_views, header_value_from_bytes, header_value_to_str, is_visible, text_of, HeaderField,
};
use crate::params::{
    content_type, custom, default_params, default_variables, document_root, query_string,
    request_method, request_uri, script_filename, script_name, server_addr, server_name,
    variables,
};
use crate::text::{find_char, lower, names_match, same_name, to_upper, upper};
use fastcgi_client::Params;
use vstd::prelude::*;
use vstd::string::{StrSliceExecFns, StringExecFns};

verus! {

/// Name of the script that answers for a directory.
pub const INDEX_SCRIPT: &'static str = "index.php";

/// `base` with `rest` below it: the two are set side by side, with one `/`
/// between them unless `base` is empty or already ends in one.
pub open spec fn joined(base: Seq<char>, rest: Seq<char>) -> Seq<char> {
    if base.len() == 0 || base.last() == '/' {
        base + rest
    } else {
        base + seq!['/'] + rest
    }
}

/// A URI path without its leading `/`, if it has one; only one is taken off.
pub open spec fn stripped(uri_path: Seq<char>) -> Seq<char> {
    if uri_path.len() > 0 && uri_path[0] == '/' {
        uri_path.subrange(1, uri_path.len() as int)
    } else {
        uri_path
    }
}

/// The place below `root` that a URI path names.
pub open spec fn candidate(root: Seq<char>, uri_path: Seq<char>) -> Seq<char> {
    joined(root, stripped(uri_path))
}

/// What the file system says of a request's candidate path.
#[derive(Clone, Copy)]
pub struct Probe {
    /// The candidate is a regular file.
    pub is_file: bool,
    /// The candidate is a directory.
    pub is_dir: bool,
    /// The candidate holds an entry named `index.php`.
    pub has_index: bool,
}

/// What a request resolves to: a file to hand out, or a script to run.
pub enum ResolvedTarget {
    Static(String),
    Script(String),
}

/// The mathematical content of a `ResolvedTarget`.
pub enum TargetView {
    Static(Seq<char>),
    Script(Seq<char>),
}

impl View for ResolvedTarget {
    type V = TargetView;

    open spec fn view(&self) -> TargetView {
        match self {
            ResolvedTarget::Static(path) => TargetView::Static(path@),
            ResolvedTarget::Script(path) => TargetView::Script(path@),
        }
    }
}

impl ResolvedTarget {
    /// The path that the target names.
    pub fn path(&self) -> (path: &str)
        ensures
            path@ == match self@ {
                TargetView::Static(p) => p,
                TargetView::Script(p) => p,
            },
    {
        match self {
            ResolvedTarget::Static(path) => path.as_str(),
            ResolvedTarget::Script(path) => path.as_str(),
        }
    }

    /// Whether the target is a script for a worker to run.
    pub fn is_script(&self) -> (script: bool)
        ensures
            script == (self@ is Script),
    {
        match self {
            ResolvedTarget::Static(_) => false,
            ResolvedTarget::Script(_) => true,
        }
    }
}

/// The target of a request: the candidate itself where it is a regular
/// file; the index script inside it where it is a directory that has one;
/// the index script of the root in every other case.
pub open spec fn resolution(root: Seq<char>, uri_path: Seq<char>, probe: Probe) -> TargetView {
    if probe.is_file {
        TargetView::Static(candidate(root, uri_path))
    } else if probe.is_dir && probe.has_index {
        TargetView::Script(joined(candidate(root, uri_path), INDEX_SCRIPT@))
    } else {
        TargetView::Script(joined(root, INDEX_SCRIPT@))
    }
}

/// Sets `path` below `root`.
pub fn join(root: &str, path: &str) -> (whole: String)
    ensures
        whole@ == joined(root@, path@),
{
    let len = root.unicode_len();
    let mut whole = String::from_str(root);
    if len > 0 && root.get_char(len - 1) != '/' {
        whole.append("/");
        proof {
            reveal_strlit("/");
        }
    }
    whole.append(path);
    whole
}

/// The path below `root` that a request for `uri_path` is about: the one to
/// probe before the request is resolved.
pub fn candidate_path(root: &str, uri_path: &str) -> (path: String)
    ensures
        path@ == candidate(root@, uri_path@),
{
    let len = uri_path.unicode_len();
    if len > 0 && uri_path.get_char(0) == '/' {
        join(root, uri_path.substring_char(1, len))
    } else {
        join(root, uri_path)
    }
}

/// The index script inside `dir`: the entry to look for when a request
/// names a directory.
pub fn index_path(dir: &str) -> (path: String)
    ensures
        path@ == joined(dir@, INDEX_SCRIPT@),
{
    join(dir, INDEX_SCRIPT)
}

/// Resolves a request to the file to hand out or the script to run, given
/// what the file system says of its candidate path. Every request resolves:
/// what names nothing falls back to the root's index script.
pub fn find_file(root: &str, uri_path: &str, probe: Probe) -> (target: ResolvedTarget)
    ensures
        target@ == resolution(root@, uri_path@, probe),
{
    if probe.is_file {
        ResolvedTarget::Static(candidate_path(root, uri_path))
    } else if probe.is_dir && probe.has_index {
        let dir = candidate_path(root, uri_path);
        ResolvedTarget::Script(index_path(dir.as_str()))
    } else {
        ResolvedTarget::Script(index_path(root))
    }
}

/// Path and query of a request's URI.
pub struct RequestTarget {
    pub path: String,
    pub query: Option<String>,
}

/// What the translator reads of an HTTP request: method, URI and headers.
/// A request whose URI holds no path has no target.
pub struct RequestHead {
    pub method: String,
    pub target: Option<RequestTarget>,
    pub headers: Vec<HeaderField>,
}

/// The mathematical content of a `RequestHead`.
pub struct HeadView {
    pub method: Seq<char>,
    pub target: Option<(Seq<char>, Option<Seq<char>>)>,
    pub headers: Seq<(Seq<char>, Seq<u8>)>,
}

impl View for RequestHead {
    type V = HeadView;

    open spec fn view(&self) -> HeadView {
        HeadView {
            method: self.method@,
            target: match self.target {
                Some(target) => Some(
                    (
                        target.path@,
                        match target.query {
                            Some(query) => Some(query@),
                            None => None,
                        },
                    ),
                ),
                None => None,
            },
            headers: field_views(self.headers@),
        }
    }
}

impl HeadView {
    /// The path of the request's URI; empty where the URI holds none.
    pub open spec fn path(self) -> Seq<char> {
        match self.target {
            Some((path, _)) => path,
            None => Seq::empty(),
        }
    }
}

impl RequestHead {
    /// The path of the request's URI; empty where the URI holds none.
    pub fn path(&self) -> (path: &str)
        ensures
            path@ == self@.path(),
    {
        match &self.target {
            Some(target) => target.path.as_str(),
            None => {
                proof {
                    reveal_strlit("");
                }
                ""
            },
        }
    }
}

/// The last component of a path: what follows its last `/`, or all of it
/// where it has none.
pub open spec fn file_name(path: Seq<char>) -> Seq<char> {
    match path.index_of_last('/') {
        Some(slash) => path.subrange(slash + 1, path.len() as int),
        None => path,
    }
}

/// The value of the first header called `name`, whatever the case of its
/// letters.
pub open spec fn lookup(headers: Seq<(Seq<char>, Seq<u8>)>, name: Seq<char>) -> Option<Seq<u8>>
    decreases headers.len(),
{
    if headers.len() == 0 {
        None
    } else if same_name(headers.first().0, name) {
        Some(headers.first().1)
    } else {
        lookup(headers.drop_first(), name)
    }
}

/// A header value as text, where it is all visible ASCII.
pub open spec fn readable(value: Seq<u8>) -> Option<Seq<char>> {
    if is_visible(value) {
        Some(text_of(value))
    } else {
        None
    }
}

/// The text of the first header called `name`; none where there is no such
/// header or where its value is not text.
pub open spec fn header_text(headers: Seq<(Seq<char>, Seq<u8>)>, name: Seq<char>) -> Option<
    Seq<char>,
> {
    match lookup(headers, name) {
        Some(value) => readable(value),
        None => None,
    }
}

/// The part of a `Host` header before its first colon; all of it where it
/// has none.
pub open spec fn host_name(host: Seq<char>) -> Seq<char> {
    match host.index_of_first(':') {
        Some(colon) => host.subrange(0, colon),
        None => host,
    }
}

/// The part of a `Host` header behind its first colon; empty where it has
/// none.
pub open spec fn host_port(host: Seq<char>) -> Seq<char> {
    match host.index_of_first(':') {
        Some(colon) => host.subrange(colon + 1, host.len() as int),
        None => Seq::empty(),
    }
}

/// The character that stands for `c` in the name of a meta-variable: `_`
/// for `-`, the capital for a lower-case letter.
pub open spec fn meta_char(c: char) -> char {
    if c == '-' {
        '_'
    } else {
        upper(c)
    }
}

/// The meta-variable under which the header called `name` is forwarded.
pub open spec fn meta_name(name: Seq<char>) -> Seq<char> {
    "HTTP_"@ + name.map_values(|c: char| meta_char(c))
}

/// A header that the translator reads itself and does not forward by rule.
pub open spec fn is_consumed(name: Seq<char>) -> bool {
    same_name(name, "host"@) || same_name(name, "content-type"@) || same_name(
        name,
        "content-length"@,
    )
}

/// The variables once the request's script is known.
pub open spec fn with_script(root: Seq<char>, script: Seq<char>, method: Seq<char>) -> Map<
    Seq<char>,
    Seq<char>,
> {
    default_variables().insert("DOCUMENT_ROOT"@, root).insert("REQUEST_METHOD"@, method).insert(
        "SCRIPT_NAME"@,
        file_name(script),
    ).insert("SCRIPT_FILENAME"@, script)
}

/// The variables after the `Host` header has been read.
pub open spec fn with_host(vars: Map<Seq<char>, Seq<char>>, host: Option<Seq<char>>) -> Map<
    Seq<char>,
    Seq<char>,
> {
    match host {
        None => vars,
        Some(host) => {
            let named = vars.insert("SERVER_NAME"@, host_name(host)).insert(
                "SERVER_ADDR"@,
                host,
            ).insert("HTTP_HOST"@, host);
            if host_port(host).len() > 0 {
                named.insert("SERVER_PORT"@, host_port(host))
            } else {
                named
            }
        },
    }
}

/// The variables after one optional value has been set under `name`.
pub open spec fn with_optional(
    vars: Map<Seq<char>, Seq<char>>,
    name: Seq<char>,
    value: Option<Seq<char>>,
) -> Map<Seq<char>, Seq<char>> {
    match value {
        Some(value) => vars.insert(name, value),
        None => vars,
    }
}

/// The variables after the URI has been read.
pub open spec fn with_target(
    vars: Map<Seq<char>, Seq<char>>,
    target: Option<(Seq<char>, Option<Seq<char>>)>,
) -> Map<Seq<char>, Seq<char>> {
    match target {
        None => vars,
        Some((path, None)) => vars.insert("REQUEST_URI"@, path),
        Some((path, Some(query))) => vars.insert("REQUEST_URI"@, path + "?"@ + query).insert(
            "QUERY_STRING"@,
            query,
        ),
    }
}

/// The variables after one more header has been forwarded: a consumed
/// header and one whose value is not text leave them as they are.
pub open spec fn forward(vars: Map<Seq<char>, Seq<char>>, field: (Seq<char>, Seq<u8>)) -> Map<
    Seq<char>,
    Seq<char>,
> {
    if is_consumed(field.0) {
        vars
    } else {
        with_optional(vars, meta_name(field.0), readable(field.1))
    }
}

/// The variables after a run of headers has been forwarded in order.
pub open spec fn forward_all(
    vars: Map<Seq<char>, Seq<char>>,
    headers: Seq<(Seq<char>, Seq<u8>)>,
) -> Map<Seq<char>, Seq<char>>
    decreases headers.len(),
{
    if headers.len() == 0 {
        vars
    } else {
        forward(forward_all(vars, headers.drop_last()), headers.last())
    }
}

/// The meta-variables that describe a request for `script` below `root`.
pub open spec fn meta_variables(root: Seq<char>, script: Seq<char>, head: HeadView) -> Map<
    Seq<char>,
    Seq<char>,
> {
    let scripted = with_script(root, script, head.method);
    let hosted = with_host(scripted, header_text(head.headers, "host"@));
    let typed = with_optional(hosted, "CONTENT_TYPE"@, header_text(head.headers, "content-type"@));
    let sized = with_optional(
        typed,
        "CONTENT_LENGTH"@,
        header_text(head.headers, "content-length"@),
    );
    forward_all(with_target(sized, head.target), head.headers)
}

/// A name under which a header may be forwarded: one that starts with
/// `HTTP_`, but for `HTTP_HOST`, which the `Host` header alone sets.
pub open spec fn is_forwarding_name(name: Seq<char>) -> bool {
    name.len() >= 5 && name.subrange(0, 5) == "HTTP_"@ && name != "HTTP_HOST"@
}

/// A header that is forwarded goes under a forwarding name.
pub proof fn lemma_forwarded_under_forwarding_name(header: Seq<char>)
    requires
        !is_consumed(header),
    ensures
        is_forwarding_name(meta_name(header)),
{
    reveal_strlit("HTTP_");
    reveal_strlit("HTTP_HOST");
    reveal_strlit("host");
    let mapped = header.map_values(|c: char| meta_char(c));
    let name = meta_name(header);
    assert(name.subrange(0, 5) =~= "HTTP_"@);
    if name == "HTTP_HOST"@ {
        assert(name.len() == 5 + mapped.len());
        assert forall|i: int| 0 <= i < 4 implies lower(#[trigger] header[i]) == lower(
            "host"@[i],
        ) by {
            assert(name[5 + i] == mapped[i]);
        }
    }
}

/// Forwarding headers leaves every variable alone that does not go under a
/// forwarding name: what the rules before it have set, no header can
/// overwrite.
pub proof fn lemma_forwarding_keeps(
    vars: Map<Seq<char>, Seq<char>>,
    headers: Seq<(Seq<char>, Seq<u8>)>,
    name: Seq<char>,
)
    requires
        !is_forwarding_name(name),
    ensures
        forward_all(vars, headers).contains_key(name) == vars.contains_key(name),
        vars.contains_key(name) ==> forward_all(vars, headers)[name] == vars[name],
    decreases headers.len(),
{
    if headers.len() > 0 {
        lemma_forwarding_keeps(vars, headers.drop_last(), name);
        if !is_consumed(headers.last().0) {
            lemma_forwarded_under_forwarding_name(headers.last().0);
        }
    }
}

/// Makes known what the names of the fixed variables spell.
proof fn lemma_fixed_names()
    ensures
        "HTTP_"@.len() == 5,
        "HTTP_"@[0] == 'H',
        "GATEWAY_INTERFACE"@.len() == 17 && "GATEWAY_INTERFACE"@[0] == 'G',
        "SERVER_SOFTWARE"@.len() == 15 && "SERVER_SOFTWARE"@[0] == 'S',
        "SERVER_PROTOCOL"@.len() == 15 && "SERVER_PROTOCOL"@[0] == 'S' && "SERVER_PROTOCOL"@[7] == 'P',
        "DOCUMENT_ROOT"@.len() == 13 && "DOCUMENT_ROOT"@[0] == 'D',
        "REQUEST_METHOD"@.len() == 14 && "REQUEST_METHOD"@[0] == 'R',
        "SCRIPT_NAME"@.len() == 11 && "SCRIPT_NAME"@[0] == 'S' && "SCRIPT_NAME"@[1] == 'C',
        "SCRIPT_FILENAME"@.len() == 15 && "SCRIPT_FILENAME"@[0] == 'S' && "SCRIPT_FILENAME"@[1] == 'C',
        "SERVER_NAME"@.len() == 11 && "SERVER_NAME"@[0] == 'S' && "SERVER_NAME"@[1] == 'E' && "SERVER_NAME"@[7] == 'N',
        "SERVER_ADDR"@.len() == 11 && "SERVER_ADDR"@[0] == 'S' && "SERVER_ADDR"@[1] == 'E' && "SERVER_ADDR"@[7] == 'A',
        "SERVER_PORT"@.len() == 11 && "SERVER_PORT"@[0] == 'S' && "SERVER_PORT"@[1] == 'E' && "SERVER_PORT"@[7] == 'P',
        "HTTP_HOST"@.len() == 9 && "HTTP_HOST"@[0] == 'H',
        "CONTENT_TYPE"@.len() == 12 && "CONTENT_TYPE"@[0] == 'C',
        "CONTENT_LENGTH"@.len() == 14 && "CONTENT_LENGTH"@[0] == 'C',
        "REQUEST_URI"@.len() == 11 && "REQUEST_URI"@[0] == 'R',
        "QUERY_STRING"@.len() == 12 && "QUERY_STRING"@[0] == 'Q',
{
    reveal_strlit("HTTP_");
    reveal_strlit("GATEWAY_INTERFACE");
    reveal_strlit("SERVER_SOFTWARE");
    reveal_strlit("SERVER_PROTOCOL");
    reveal_strlit("DOCUMENT_ROOT");
    reveal_strlit("REQUEST_METHOD");
    reveal_strlit("SCRIPT_NAME");
    reveal_strlit("SCRIPT_FILENAME");
    reveal_strlit("SERVER_NAME");
    reveal_strlit("SERVER_ADDR");
    reveal_strlit("SERVER_PORT");
    reveal_strlit("HTTP_HOST");
    reveal_strlit("CONTENT_TYPE");
    reveal_strlit("CONTENT_LENGTH");
    reveal_strlit("REQUEST_URI");
    reveal_strlit("QUERY_STRING");
}

/// Whatever headers a request carries, the variables that describe the
/// script are those of the first rule: the document root, the method, the
/// script's file name and the script's path.
pub proof fn lemma_script_variables(root: Seq<char>, script: Seq<char>, head: HeadView)
    ensures
        meta_variables(root, script, head).contains_pair("DOCUMENT_ROOT"@, root),
        meta_variables(root, script, head).contains_pair("REQUEST_METHOD"@, head.method),
        meta_variables(root, script, head).contains_pair("SCRIPT_NAME"@, file_name(script)),
        meta_variables(root, script, head).contains_pair("SCRIPT_FILENAME"@, script),
{
    lemma_fixed_names();
    let scripted = with_script(root, script, head.method);
    let hosted = with_host(scripted, header_text(head.headers, "host"@));
    let typed = with_optional(hosted, "CONTENT_TYPE"@, header_text(head.headers, "content-type"@));
    let sized = with_optional(
        typed,
        "CONTENT_LENGTH"@,
        header_text(head.headers, "content-length"@),
    );
    let aimed = with_target(sized, head.target);
    lemma_forwarding_keeps(aimed, head.headers, "DOCUMENT_ROOT"@);
    lemma_forwarding_keeps(aimed, head.headers, "REQUEST_METHOD"@);
    lemma_forwarding_keeps(aimed, head.headers, "SCRIPT_NAME"@);
    lemma_forwarding_keeps(aimed, head.headers, "SCRIPT_FILENAME"@);
}

/// Whatever headers a request carries, the request URI is the path, with
/// `?` and the query behind it where the URI has a query, and the query
/// string is set exactly where the URI has a query.
pub proof fn lemma_uri_variables(root: Seq<char>, script: Seq<char>, head: HeadView)
    ensures
        match head.target {
            Some((path, Some(query))) => {
                &&& meta_variables(root, script, head).contains_pair(
                    "REQUEST_URI"@,
                    path + "?"@ + query,
                )
                &&& meta_variables(root, script, head).contains_pair("QUERY_STRING"@, query)
            },
            Some((path, None)) => {
                &&& meta_variables(root, script, head).contains_pair("REQUEST_URI"@, path)
                &&& !meta_variables(root, script, head).contains_key("QUERY_STRING"@)
            },
            None => {
                &&& !meta_variables(root, script, head).contains_key("REQUEST_URI"@)
                &&& !meta_variables(root, script, head).contains_key("QUERY_STRING"@)
            },
        },
{
    lemma_fixed_names();
    let scripted = with_script(root, script, head.method);
    let hosted = with_host(scripted, header_text(head.headers, "host"@));
    let typed = with_optional(hosted, "CONTENT_TYPE"@, header_text(head.headers, "content-type"@));
    let sized = with_optional(
        typed,
        "CONTENT_LENGTH"@,
        header_text(head.headers, "content-length"@),
    );
    let aimed = with_target(sized, head.target);
    lemma_forwarding_keeps(aimed, head.headers, "REQUEST_URI"@);
    lemma_forwarding_keeps(aimed, head.headers, "QUERY_STRING"@);
}

/// The last component of `path`.
pub fn file_name_of(path: &str) -> (name: &str)
    ensures
        name@ == file_name(path@),
{
    let len = path.unicode_len();
    let mut at: usize = len;
    while at > 0
        invariant
            at <= len,
            len == path@.len(),
            forall|k: int| at <= k < len ==> path@[k] != '/',
        decreases at,
    {
        if path.get_char(at - 1) == '/' {
            proof {
                path@.index_of_last_ensures('/');
            }
            return path.substring_char(at, len);
        }
        at -= 1;
    }
    proof {
        path@.index_of_last_ensures('/');
    }
    path
}

/// A header value as text, where it is all visible ASCII.
pub fn readable_text(value: &[u8]) -> (text: Option<String>)
    ensures
        match readable(value@) {
            Some(expected) => text matches Some(t) && t@ == expected,
            None => text is None,
        },
{
    match header_value_from_bytes(value) {
        Ok(accepted) => header_value_to_str(&accepted),
        Err(_) => None,
    }
}

/// The text of the first header called `name`.
pub fn find_header(headers: &Vec<HeaderField>, name: &str) -> (text: Option<String>)
    ensures
        match header_text(field_views(headers@), name@) {
            Some(expected) => text matches Some(t) && t@ == expected,
            None => text is None,
        },
{
    let mut i: usize = 0;
    proof {
        assert(field_views(headers@).skip(0) =~= field_views(headers@));
    }
    while i < headers.len()
        invariant
            i <= headers.len(),
            lookup(field_views(headers@), name@) == lookup(
                field_views(headers@).skip(i as int),
                name@,
            ),
        decreases headers.len() - i,
    {
        proof {
            assert(field_views(headers@).skip(i as int).drop_first() =~= field_views(
                headers@,
            ).skip(i + 1));
        }
        if names_match(headers[i].name.as_str(), name) {
            return readable_text(headers[i].value.as_slice());
        }
        i += 1;
    }
    None
}

/// The name of the meta-variable that forwards the header called `name`.
pub fn meta_name_of(name: &str) -> (meta: String)
    ensures
        meta@ == meta_name(name@),
{
    let len = name.unicode_len();
    let mut meta = String::from_str("HTTP_");
    let mut i: usize = 0;
    while i < len
        invariant
            i <= len,
            len == name@.len(),
            meta@ == "HTTP_"@ + name@.take(i as int).map_values(|c: char| meta_char(c)),
        decreases len - i,
    {
        let c = name.get_char(i);
        let mapped = if c == '-' {
            '_'
        } else {
            to_upper(c)
        };
        meta.push(mapped);
        proof {
            assert(name@.take(i + 1).map_values(|c: char| meta_char(c)) =~= name@.take(
                i as int,
            ).map_values(|c: char| meta_char(c)).push(mapped));
        }
        i += 1;
    }
    meta
}

/// Whether the translator reads the header called `name` itself.
fn consumed(name: &str) -> (yes: bool)
    ensures
        yes == is_consumed(name@),
{
    names_match(name, "host") || names_match(name, "content-type") || names_match(
        name,
        "content-length",
    )
}

/// Sets `name` to `value` where there is a value.
fn set_optional(params: Params<'static>, name: &str, value: Option<String>) -> (set: Params<
    'static,
>)
    ensures
        variables(set) == with_optional(
            variables(params),
            name@,
            match value {
                Some(text) => Some(text@),
                None => None,
            },
        ),
{
    match value {
        Some(text) => custom(params, name, text.as_str()),
        None => params,
    }
}

/// Sets what the `Host` header gives: server name and address, the header
/// itself, and the port where it names one.
fn set_host(params: Params<'static>, host: Option<String>) -> (set: Params<'static>)
    ensures
        variables(set) == with_host(
            variables(params),
            match host {
                Some(text) => Some(text@),
                None => None,
            },
        ),
{
    let host = match host {
        Some(host) => host,
        None => {
            return params;
        },
    };
    let text = host.as_str();
    let len = text.unicode_len();
    let (name, port) = match find_char(text, ':') {
        Some(colon) => (text.substring_char(0, colon), text.substring_char(colon + 1, len)),
        None => (text, ""),
    };
    proof {
        reveal_strlit("");
    }
    let named = custom(server_addr(server_name(params, name), text), "HTTP_HOST", text);
    if port.unicode_len() > 0 {
        custom(named, "SERVER_PORT", port)
    } else {
        named
    }
}

/// Sets what the URI gives: the request URI, and the query where it has
/// one.
fn set_target(params: Params<'static>, target: &Option<RequestTarget>) -> (set: Params<'static>)
    ensures
        variables(set) == with_target(
            variables(params),
            match target {
                Some(target) => Some(
                    (
                        target.path@,
                        match target.query {
                            Some(query) => Some(query@),
                            None => None,
                        },
                    ),
                ),
                None => None,
            },
        ),
{
    match target {
        None => params,
        Some(target) => match &target.query {
            None => request_uri(params, target.path.as_str()),
            Some(query) => {
                let mut uri = String::from_str(target.path.as_str());
                uri.append("?");
                uri.append(query.as_str());
                query_string(request_uri(params, uri.as_str()), query.as_str())
            },
        },
    }
}

/// Describes a request to a worker: the meta-variables for the script at
/// `script` below the document root `root`.
///
/// The fixed variables come first, then what `Host`, `Content-Type`,
/// `Content-Length` and the URI give, then one `HTTP_` variable for every
/// other header whose value is text.
pub fn translate(root: &str, script: &str, head: &RequestHead) -> (params: Params<'static>)
    ensures
        variables(params) == meta_variables(root@, script@, head@),
{
    let mut params = default_params();
    params = document_root(params, root);
    params = request_method(params, head.method.as_str());
    params = script_name(params, file_name_of(script));
    params = script_filename(params, script);
    params = set_host(params, find_header(&head.headers, "host"));
    params = match find_header(&head.headers, "content-type") {
        Some(text) => content_type(params, text.as_str()),
        None => params,
    };
    params = set_optional(params, "CONTENT_LENGTH", find_header(&head.headers, "content-length"));
    params = set_target(params, &head.target);
    let ghost start = variables(params);
    let mut i: usize = 0;
    while i < head.headers.len()
        invariant
            i <= head.headers.len(),
            variables(params) == forward_all(start, field_views(head.headers@).take(i as int)),
        decreases head.headers.len() - i,
    {
        let field = &head.headers[i];
        proof {
            assert(field_views(head.headers@).take(i + 1).drop_last() =~= field_views(
                head.headers@,
            ).take(i as int));
        }
        if !consumed(field.name.as_str()) {
            let name = meta_name_of(field.name.as_str());
            params = set_optional(params, name.as_str(), readable_text(field.value.as_slice()));
        }
        i += 1;
    }
    proof {
        assert(field_views(head.headers@).take(i as int) =~= field_views(head.headers@));
    }
    params
}

} // verus!
