//! Request construction for the OpenCode HTTP API: which method, path,
//! query and body each endpoint uses, and how path segments are escaped.

use vstd::prelude::*;
use vstd::string::*;
use vstd::utf8::*;
use crate::text::{opt_text, push_char};
use crate::types::session::{pairs_text, query_pairs, SessionListParams};

verus! {

/// Bytes that stand for themselves in a path segment: ASCII letters, digits
/// and `-`, `.`, `_`, `~`.
pub open spec fn is_unreserved(b: u8) -> bool {
    ||| 65 <= b <= 90
    ||| 97 <= b <= 122
    ||| 48 <= b <= 57
    ||| b == 45
    ||| b == 46
    ||| b == 95
    ||| b == 126
}

/// Upper-case hexadecimal digit for a value below sixteen.
pub open spec fn hex_digit(n: u8) -> char {
    if n < 10 {
        ((48 + n) as u8) as char
    } else {
        ((55 + n) as u8) as char
    }
}

/// Escaped form of one byte: itself when unreserved, else `%` and two
/// upper-case hexadecimal digits.
pub open spec fn escape_byte(b: u8) -> Seq<char> {
    if is_unreserved(b) {
        seq![b as char]
    } else {
        seq!['%', hex_digit(b / 16), hex_digit(b % 16)]
    }
}

/// Escaped form of a byte string, byte by byte.
pub open spec fn escape_bytes(bs: Seq<u8>) -> Seq<char>
    decreases bs.len(),
{
    if bs.len() == 0 {
        Seq::empty()
    } else {
        escape_bytes(bs.drop_last()) + escape_byte(bs.last())
    }
}

/// Escaped form of a path segment: its UTF-8 bytes, each escaped.
pub open spec fn escaped_segment(s: Seq<char>) -> Seq<char> {
    escape_bytes(encode_utf8(s))
}

fn hex_digit_of(n: u8) -> (c: char)
    requires
        n < 16,
    ensures
        c == hex_digit(n),
{
    if n < 10 {
        (48 + n) as char
    } else {
        (55 + n) as char
    }
}

fn is_unreserved_byte(b: u8) -> (r: bool)
    ensures
        r == is_unreserved(b),
{
    (65 <= b && b <= 90) || (97 <= b && b <= 122) || (48 <= b && b <= 57) || b == 45 || b == 46
        || b == 95 || b == 126
}

/// Percent-encodes a value for use as one segment of a URL path.
pub fn encode_path_segment(segment: &str) -> (r: String)
    ensures
        r@ == escaped_segment(segment@),
{
    let bytes = segment.as_bytes();
    let mut out = String::new();
    let mut i: usize = 0;
    assert(bytes@.take(0) =~= Seq::<u8>::empty());
    assert(out@ =~= escape_bytes(bytes@.take(0)));
    while i < bytes.len()
        invariant
            i <= bytes@.len(),
            bytes@ == segment.spec_bytes(),
            out@ == escape_bytes(bytes@.take(i as int)),
        decreases bytes@.len() - i,
    {
        let b = bytes[i];
        if is_unreserved_byte(b) {
            push_char(&mut out, b as char);
        } else {
            push_char(&mut out, '%');
            push_char(&mut out, hex_digit_of(b / 16));
            push_char(&mut out, hex_digit_of(b % 16));
        }
        assert(bytes@.take(i + 1).drop_last() =~= bytes@.take(i as int));
        assert(out@ =~= escape_bytes(bytes@.take(i + 1)));
        i = i + 1;
    }
    assert(bytes@.take(bytes@.len() as int) =~= bytes@);
    out
}

/// True when every character of a segment is an ASCII character that path
/// escaping leaves as it is.
pub open spec fn is_plain_segment(s: Seq<char>) -> bool {
    forall|i: int| 0 <= i < s.len() ==> '\0' <= #[trigger] s[i] <= '\u{7f}' && is_unreserved(s[i] as u8)
}

proof fn lemma_escape_unreserved_bytes(bs: Seq<u8>)
    requires
        forall|i: int| 0 <= i < bs.len() ==> is_unreserved(#[trigger] bs[i]),
    ensures
        escape_bytes(bs) =~= bs.map_values(|b: u8| b as char),
    decreases bs.len(),
{
    if bs.len() > 0 {
        let init = bs.drop_last();
        assert forall|i: int| 0 <= i < init.len() implies is_unreserved(#[trigger] init[i]) by {
            assert(init[i] == bs[i]);
        }
        lemma_escape_unreserved_bytes(init);
        assert(bs.map_values(|b: u8| b as char) =~= init.map_values(|b: u8| b as char).push(bs.last() as char));
    }
}

/// Escaping leaves a segment made of unreserved ASCII characters unchanged.
pub proof fn lemma_plain_segment_unchanged(s: Seq<char>)
    requires
        is_plain_segment(s),
    ensures
        escaped_segment(s) == s,
{
    assert(is_ascii_chars(s));
    is_ascii_chars_encode_utf8(s);
    let bs = encode_utf8(s);
    assert forall|i: int| 0 <= i < bs.len() implies is_unreserved(#[trigger] bs[i]) by {
        assert(bs[i] == s[i] as u8);
    }
    lemma_escape_unreserved_bytes(bs);
    assert forall|i: int| 0 <= i < s.len() implies (bs[i] as char) == #[trigger] s[i] by {
        assert(bs[i] == s[i] as u8);
    }
    assert(bs.map_values(|b: u8| b as char) =~= s);
}

proof fn lemma_escape_bytes_no_slash(bs: Seq<u8>)
    ensures
        forall|i: int| 0 <= i < escape_bytes(bs).len() ==> escape_bytes(bs)[i] != '/',
    decreases bs.len(),
{
    if bs.len() > 0 {
        lemma_escape_bytes_no_slash(bs.drop_last());
        let b = bs.last();
        let head = escape_bytes(bs.drop_last());
        let tail = escape_byte(b);
        assert forall|i: int| 0 <= i < tail.len() implies tail[i] != '/' by {
            if is_unreserved(b) {
                assert(b != 47);
            } else {
                assert(b / 16 < 16 && b % 16 < 16);
            }
        }
        assert forall|i: int| 0 <= i < escape_bytes(bs).len() implies escape_bytes(bs)[i] != '/' by {
            if i < head.len() {
                assert(escape_bytes(bs)[i] == head[i]);
            } else {
                assert(escape_bytes(bs)[i] == tail[i - head.len()]);
            }
        }
    }
}

/// An escaped segment never contains `/`, so an id placed in a path always
/// occupies exactly one segment of it.
pub proof fn lemma_escaped_segment_has_no_slash(s: Seq<char>)
    ensures
        forall|i: int| 0 <= i < escaped_segment(s).len() ==> escaped_segment(s)[i] != '/',
{
    lemma_escape_bytes_no_slash(encode_utf8(s));
}

/// The value of an upper-case hexadecimal digit.
pub open spec fn hex_value(c: char) -> Option<nat> {
    if '0' <= c <= '9' {
        Some((c as nat - 48) as nat)
    } else if 'A' <= c <= 'F' {
        Some((c as nat - 55) as nat)
    } else {
        None
    }
}

/// Reads an escaped path segment back into bytes: `%` followed by two
/// upper-case hexadecimal digits is the byte they spell, an unreserved ASCII
/// character is its own byte, and anything else makes the text unreadable.
pub open spec fn unescape(s: Seq<char>) -> Option<Seq<u8>>
    decreases s.len(),
{
    if s.len() == 0 {
        Some(Seq::empty())
    } else if s[0] == '%' {
        if s.len() >= 3 && hex_value(s[1]) is Some && hex_value(s[2]) is Some {
            match unescape(s.skip(3)) {
                Some(rest) => Some(seq![(hex_value(s[1])->0 * 16 + hex_value(s[2])->0) as u8] + rest),
                None => None,
            }
        } else {
            None
        }
    } else if (s[0] as nat) < 128 && is_unreserved(s[0] as u8) {
        match unescape(s.skip(1)) {
            Some(rest) => Some(seq![s[0] as u8] + rest),
            None => None,
        }
    } else {
        None
    }
}

proof fn lemma_escape_bytes_concat(a: Seq<u8>, b: Seq<u8>)
    ensures
        escape_bytes(a + b) == escape_bytes(a) + escape_bytes(b),
    decreases b.len(),
{
    if b.len() == 0 {
        assert(a + b =~= a);
        assert(escape_bytes(a) + escape_bytes(b) =~= escape_bytes(a));
    } else {
        assert((a + b).drop_last() =~= a + b.drop_last());
        assert((a + b).last() == b.last());
        lemma_escape_bytes_concat(a, b.drop_last());
        assert(escape_bytes(a) + escape_bytes(b) =~= escape_bytes(a) + escape_bytes(b.drop_last()) + escape_byte(b.last()));
    }
}

proof fn lemma_hex_digit_value(n: u8)
    requires
        n < 16,
    ensures
        hex_value(hex_digit(n)) == Some(n as nat),
{
}

proof fn lemma_unescape_byte(b: u8, t: Seq<char>)
    ensures
        unescape(escape_byte(b) + t) == (match unescape(t) {
            Some(rest) => Some(seq![b] + rest),
            None => None::<Seq<u8>>,
        }),
{
    let x = escape_byte(b) + t;
    if is_unreserved(b) {
        assert(x[0] == b as char);
        assert((b as char) as nat == b as nat);
        assert(((b as char) as u8) == b);
        assert(x.skip(1) =~= t);
    } else {
        let hi = b / 16;
        let lo = b % 16;
        lemma_hex_digit_value(hi);
        lemma_hex_digit_value(lo);
        assert(x[0] == '%');
        assert(x[1] == hex_digit(hi));
        assert(x[2] == hex_digit(lo));
        assert(x.skip(3) =~= t);
        assert((hi * 16 + lo) as u8 == b);
    }
}

proof fn lemma_unescape_escape_bytes(bs: Seq<u8>)
    ensures
        unescape(escape_bytes(bs)) == Some(bs),
    decreases bs.len(),
{
    if bs.len() > 0 {
        let first = seq![bs[0]];
        let rest = bs.drop_first();
        assert(bs =~= first + rest);
        lemma_escape_bytes_concat(first, rest);
        assert(first.drop_last() =~= Seq::<u8>::empty());
        assert(first.last() == bs[0]);
        assert(escape_bytes(first.drop_last()) =~= Seq::<char>::empty());
        assert(escape_bytes(first) =~= escape_byte(bs[0]));
        lemma_unescape_escape_bytes(rest);
        lemma_unescape_byte(bs[0], escape_bytes(rest));
        assert(seq![bs[0]] + rest =~= bs);
    }
}

/// The bytes that stand for themselves in an escaped segment are exactly the
/// ASCII letters, the digits, and `-`, `.`, `_` and `~`; every other byte is
/// written as `%XX`.
pub proof fn lemma_unreserved_characters(c: char)
    requires
        (c as nat) < 128,
    ensures
        is_unreserved(c as u8) <==> ('a' <= c <= 'z' || 'A' <= c <= 'Z' || '0' <= c <= '9' || c == '-'
            || c == '.' || c == '_' || c == '~'),
{
}

/// Escaping a segment loses nothing and uses only upper-case `%XX` escapes:
/// reading the escaped text back, byte by byte, gives exactly the segment's
/// UTF-8 bytes.
pub proof fn lemma_escaped_segment_reads_back(s: Seq<char>)
    ensures
        unescape(escaped_segment(s)) == Some(encode_utf8(s)),
{
    lemma_unescape_escape_bytes(encode_utf8(s));
}

/// HTTP method of a request.
#[derive(Clone, Copy, Debug, PartialEq, Eq, Structural)]
pub enum HttpMethod {
    /// `GET`
    Get,
    /// `POST`
    Post,
    /// `PATCH`
    Patch,
    /// `DELETE`
    Delete,
}

/// What a request carries as its body.
#[derive(Clone, Copy, Debug, PartialEq, Eq, Structural)]
pub enum RequestBody {
    /// No body.
    Absent,
    /// The empty JSON object `{}`.
    EmptyObject,
    /// The JSON encoding of the request value passed to the call.
    Payload,
}

/// A planned request: method, path below the base URL, query pairs and body.
pub struct Route {
    /// HTTP method.
    pub method: HttpMethod,
    /// Path below the server's base URL.
    pub path: String,
    /// Query pairs, in order.
    pub query: Vec<(&'static str, String)>,
    /// Body carried by the request.
    pub body: RequestBody,
}

/// The session endpoints of the API.
#[derive(Clone, Copy, Debug, PartialEq, Eq, Structural)]
pub enum SessionOp {
    /// `POST /session`
    Create,
    /// `GET /session/{id}`
    Get,
    /// `DELETE /session/{id}`
    Delete,
    /// `POST /session/{id}/fork`
    Fork,
    /// `POST /session/{id}/abort`
    Abort,
    /// `GET /session/status`
    Status,
    /// `GET /session/{id}/children`
    Children,
    /// `GET /session/{id}/todo`
    Todo,
    /// `PATCH /session/{id}`
    Update,
    /// `POST /session/{id}/init`
    Init,
    /// `POST /session/{id}/share`
    Share,
    /// `DELETE /session/{id}/share`
    Unshare,
    /// `GET /session/{id}/diff`
    Diff,
    /// `POST /session/{id}/summarize`
    Summarize,
    /// `POST /session/{id}/revert`
    Revert,
    /// `POST /session/{id}/unrevert`
    Unrevert,
}

/// The method each session endpoint uses.
pub open spec fn session_op_method(op: SessionOp) -> HttpMethod {
    match op {
        SessionOp::Get | SessionOp::Status | SessionOp::Children | SessionOp::Todo
        | SessionOp::Diff => HttpMethod::Get,
        SessionOp::Delete | SessionOp::Unshare => HttpMethod::Delete,
        SessionOp::Update => HttpMethod::Patch,
        _ => HttpMethod::Post,
    }
}

/// The body each session endpoint sends.
pub open spec fn session_op_body(op: SessionOp) -> RequestBody {
    match op {
        SessionOp::Create | SessionOp::Update | SessionOp::Init | SessionOp::Summarize
        | SessionOp::Revert => RequestBody::Payload,
        SessionOp::Fork | SessionOp::Abort | SessionOp::Share | SessionOp::Unrevert => RequestBody::EmptyObject,
        _ => RequestBody::Absent,
    }
}

/// True for the endpoints whose path names one session.
pub open spec fn session_op_has_id(op: SessionOp) -> bool {
    !(op is Create || op is Status)
}

/// The part of the path after `/session/{id}`.
pub open spec fn session_op_suffix(op: SessionOp) -> Seq<char> {
    match op {
        SessionOp::Fork => "/fork"@,
        SessionOp::Abort => "/abort"@,
        SessionOp::Children => "/children"@,
        SessionOp::Todo => "/todo"@,
        SessionOp::Init => "/init"@,
        SessionOp::Share | SessionOp::Unshare => "/share"@,
        SessionOp::Diff => "/diff"@,
        SessionOp::Summarize => "/summarize"@,
        SessionOp::Revert => "/revert"@,
        SessionOp::Unrevert => "/unrevert"@,
        _ => Seq::empty(),
    }
}

/// The path of a session endpoint for a session id.
pub open spec fn session_op_path(op: SessionOp, id: Seq<char>) -> Seq<char> {
    if op is Create {
        "/session"@
    } else if op is Status {
        "/session/status"@
    } else {
        "/session/"@ + escaped_segment(id) + session_op_suffix(op)
    }
}

/// The session endpoints, one by one: `POST /session` creates (with the
/// request value), `GET`/`DELETE`/`PATCH /session/{id}` read, delete (with no
/// body) and update (with the request value), and the actions below
/// `/session/{id}/` use the methods and bodies listed here. Exactly create,
/// update, init, summarize and revert send the request value; fork, abort,
/// share and unrevert send `{}`; every other endpoint sends no body. The
/// session id always stands escaped as one path segment.
pub proof fn lemma_session_endpoints(id: Seq<char>)
    ensures
        session_op_method(SessionOp::Create) == HttpMethod::Post,
        session_op_body(SessionOp::Create) == RequestBody::Payload,
        session_op_path(SessionOp::Create, id) == "/session"@,
        session_op_method(SessionOp::Get) == HttpMethod::Get,
        session_op_body(SessionOp::Get) == RequestBody::Absent,
        session_op_path(SessionOp::Get, id) == "/session/"@ + escaped_segment(id),
        session_op_method(SessionOp::Delete) == HttpMethod::Delete,
        session_op_body(SessionOp::Delete) == RequestBody::Absent,
        session_op_path(SessionOp::Delete, id) == "/session/"@ + escaped_segment(id),
        session_op_method(SessionOp::Fork) == HttpMethod::Post,
        session_op_body(SessionOp::Fork) == RequestBody::EmptyObject,
        session_op_path(SessionOp::Fork, id) == "/session/"@ + escaped_segment(id) + "/fork"@,
        session_op_method(SessionOp::Abort) == HttpMethod::Post,
        session_op_body(SessionOp::Abort) == RequestBody::EmptyObject,
        session_op_path(SessionOp::Abort, id) == "/session/"@ + escaped_segment(id) + "/abort"@,
        session_op_method(SessionOp::Status) == HttpMethod::Get,
        session_op_body(SessionOp::Status) == RequestBody::Absent,
        session_op_path(SessionOp::Status, id) == "/session/status"@,
        session_op_method(SessionOp::Children) == HttpMethod::Get,
        session_op_body(SessionOp::Children) == RequestBody::Absent,
        session_op_path(SessionOp::Children, id) == "/session/"@ + escaped_segment(id) + "/children"@,
        session_op_method(SessionOp::Todo) == HttpMethod::Get,
        session_op_body(SessionOp::Todo) == RequestBody::Absent,
        session_op_path(SessionOp::Todo, id) == "/session/"@ + escaped_segment(id) + "/todo"@,
        session_op_method(SessionOp::Update) == HttpMethod::Patch,
        session_op_body(SessionOp::Update) == RequestBody::Payload,
        session_op_path(SessionOp::Update, id) == "/session/"@ + escaped_segment(id),
        session_op_method(SessionOp::Init) == HttpMethod::Post,
        session_op_body(SessionOp::Init) == RequestBody::Payload,
        session_op_path(SessionOp::Init, id) == "/session/"@ + escaped_segment(id) + "/init"@,
        session_op_method(SessionOp::Share) == HttpMethod::Post,
        session_op_body(SessionOp::Share) == RequestBody::EmptyObject,
        session_op_path(SessionOp::Share, id) == "/session/"@ + escaped_segment(id) + "/share"@,
        session_op_method(SessionOp::Unshare) == HttpMethod::Delete,
        session_op_body(SessionOp::Unshare) == RequestBody::Absent,
        session_op_path(SessionOp::Unshare, id) == "/session/"@ + escaped_segment(id) + "/share"@,
        session_op_method(SessionOp::Diff) == HttpMethod::Get,
        session_op_body(SessionOp::Diff) == RequestBody::Absent,
        session_op_path(SessionOp::Diff, id) == "/session/"@ + escaped_segment(id) + "/diff"@,
        session_op_method(SessionOp::Summarize) == HttpMethod::Post,
        session_op_body(SessionOp::Summarize) == RequestBody::Payload,
        session_op_path(SessionOp::Summarize, id) == "/session/"@ + escaped_segment(id) + "/summarize"@,
        session_op_method(SessionOp::Revert) == HttpMethod::Post,
        session_op_body(SessionOp::Revert) == RequestBody::Payload,
        session_op_path(SessionOp::Revert, id) == "/session/"@ + escaped_segment(id) + "/revert"@,
        session_op_method(SessionOp::Unrevert) == HttpMethod::Post,
        session_op_body(SessionOp::Unrevert) == RequestBody::EmptyObject,
        session_op_path(SessionOp::Unrevert, id) == "/session/"@ + escaped_segment(id) + "/unrevert"@,
{
}

/// Which session endpoints send the caller's request value: create, update,
/// init, summarize and revert, and no other.
pub proof fn lemma_session_payload_endpoints(op: SessionOp)
    ensures
        session_op_body(op) == RequestBody::Payload <==> (op is Create || op is Update || op is Init
            || op is Summarize || op is Revert),
        (op is Get || op is Delete || op is Status || op is Children || op is Todo || op is Unshare
            || op is Diff) <==> session_op_body(op) == RequestBody::Absent,
{
}

fn session_suffix_of(op: SessionOp) -> (r: &'static str)
    ensures
        r@ == session_op_suffix(op),
{
    match op {
        SessionOp::Fork => "/fork",
        SessionOp::Abort => "/abort",
        SessionOp::Children => "/children",
        SessionOp::Todo => "/todo",
        SessionOp::Init => "/init",
        SessionOp::Share | SessionOp::Unshare => "/share",
        SessionOp::Diff => "/diff",
        SessionOp::Summarize => "/summarize",
        SessionOp::Revert => "/revert",
        SessionOp::Unrevert => "/unrevert",
        _ => {
            proof { reveal_strlit(""); }
            ""
        },
    }
}

/// Plans the request of a session endpoint; `id` is ignored by the
/// endpoints that name no session.
pub fn session_route(op: SessionOp, id: &str) -> (r: Route)
    ensures
        r.method == session_op_method(op),
        r.path@ == session_op_path(op, id@),
        r.query@.len() == 0,
        r.body == session_op_body(op),
{
    let method = match op {
        SessionOp::Get | SessionOp::Status | SessionOp::Children | SessionOp::Todo
        | SessionOp::Diff => HttpMethod::Get,
        SessionOp::Delete | SessionOp::Unshare => HttpMethod::Delete,
        SessionOp::Update => HttpMethod::Patch,
        _ => HttpMethod::Post,
    };
    let body = match op {
        SessionOp::Create | SessionOp::Update | SessionOp::Init | SessionOp::Summarize
        | SessionOp::Revert => RequestBody::Payload,
        SessionOp::Fork | SessionOp::Abort | SessionOp::Share | SessionOp::Unrevert => RequestBody::EmptyObject,
        _ => RequestBody::Absent,
    };
    let mut path = String::new();
    match op {
        SessionOp::Create => {
            path.append("/session");
        },
        SessionOp::Status => {
            path.append("/session/status");
        },
        _ => {
            path.append("/session/");
            let sid = encode_path_segment(id);
            path.append(sid.as_str());
            path.append(session_suffix_of(op));
        },
    }
    assert(path@ =~= session_op_path(op, id@));
    Route { method, path, query: Vec::new(), body }
}

/// Plans `GET /session` with the query pairs of the listing parameters.
pub fn list_sessions_route(params: &SessionListParams) -> (r: Route)
    ensures
        r.method == HttpMethod::Get,
        r.path@ == "/session"@,
        pairs_text(r.query@) == query_pairs(*params),
        r.body == RequestBody::Absent,
{
    let mut path = String::new();
    path.append("/session");
    assert(path@ =~= "/session"@);
    Route { method: HttpMethod::Get, path, query: params.to_query_pairs(), body: RequestBody::Absent }
}

/// Plans `GET /session/{id}/diff?messageID={message_id}`.
pub fn diff_since_message_route(id: &str, message_id: &str) -> (r: Route)
    ensures
        r.method == HttpMethod::Get,
        r.path@ == session_op_path(SessionOp::Diff, id@),
        pairs_text(r.query@) == seq![("messageID"@, message_id@)],
        r.body == RequestBody::Absent,
{
    let base = session_route(SessionOp::Diff, id);
    let mut query: Vec<(&'static str, String)> = Vec::new();
    query.push(("messageID", crate::text::owned(message_id)));
    assert(pairs_text(query@) =~= seq![("messageID"@, message_id@)]);
    Route { method: HttpMethod::Get, path: base.path, query, body: RequestBody::Absent }
}

/// The configuration endpoints of the API.
#[derive(Clone, Copy, Debug, PartialEq, Eq, Structural)]
pub enum ConfigOp {
    /// `GET /config`
    Get,
    /// `PATCH /config`
    Update,
    /// `GET /config/providers`
    Providers,
}

/// Plans the request of a configuration endpoint.
pub fn config_route(op: ConfigOp) -> (r: Route)
    ensures
        r.method == (if op is Update { HttpMethod::Patch } else { HttpMethod::Get }),
        r.path@ == (if op is Providers { "/config/providers"@ } else { "/config"@ }),
        r.query@.len() == 0,
        r.body == (if op is Update { RequestBody::Payload } else { RequestBody::Absent }),
{
    let mut path = String::new();
    match op {
        ConfigOp::Get => {
            path.append("/config");
            Route { method: HttpMethod::Get, path, query: Vec::new(), body: RequestBody::Absent }
        },
        ConfigOp::Update => {
            path.append("/config");
            Route { method: HttpMethod::Patch, path, query: Vec::new(), body: RequestBody::Payload }
        },
        ConfigOp::Providers => {
            path.append("/config/providers");
            Route { method: HttpMethod::Get, path, query: Vec::new(), body: RequestBody::Absent }
        },
    }
}

/// The file endpoints of the API.
#[derive(Clone, Copy, Debug, PartialEq, Eq, Structural)]
pub enum FilesOp {
    /// `GET /file?path=..`
    List,
    /// `GET /file/content?path=..`
    Read,
    /// `GET /file/status`
    Status,
}

/// Plans the request of a file endpoint; `path` is sent as the `path`
/// query pair by listing and reading, and ignored by the status endpoint.
pub fn files_route(op: FilesOp, path: &str) -> (r: Route)
    ensures
        r.method == HttpMethod::Get,
        r.path@ == (match op {
            FilesOp::List => "/file"@,
            FilesOp::Read => "/file/content"@,
            FilesOp::Status => "/file/status"@,
        }),
        pairs_text(r.query@) == (if op is Status { Seq::empty() } else { seq![("path"@, path@)] }),
        r.body == RequestBody::Absent,
{
    let mut p = String::new();
    let mut query: Vec<(&'static str, String)> = Vec::new();
    match op {
        FilesOp::List => {
            p.append("/file");
            query.push(("path", crate::text::owned(path)));
        },
        FilesOp::Read => {
            p.append("/file/content");
            query.push(("path", crate::text::owned(path)));
        },
        FilesOp::Status => {
            p.append("/file/status");
        },
    }
    assert(pairs_text(query@) =~= (if op is Status { Seq::empty() } else { seq![("path"@, path@)] }));
    assert(p@ =~= (match op {
        FilesOp::List => "/file"@,
        FilesOp::Read => "/file/content"@,
        FilesOp::Status => "/file/status"@,
    }));
    Route { method: HttpMethod::Get, path: p, query, body: RequestBody::Absent }
}

/// Whether an error status means the resource was not found (404).
pub fn status_is_not_found(status: u16) -> (r: bool)
    ensures
        r == (status == 404),
{
    status == 404
}

/// Whether an error status means the server rejected the request as
/// invalid (400).
pub fn status_is_validation_error(status: u16) -> (r: bool)
    ensures
        r == (status == 400),
{
    status == 400
}

/// Whether an error status means the server failed on its side (5xx).
pub fn status_is_server_error(status: u16) -> (r: bool)
    ensures
        r == (500 <= status <= 599),
{
    500 <= status && status <= 599
}

/// What `serde_json::from_str::<Value>` gives for a text: the parsed value,
/// or `None` when the text is not JSON.
pub uninterp spec fn parsed_json(text: Seq<char>) -> Option<serde_json::Value>;

/// What `Value::get` gives for a string key: the member of that name when
/// the value is an object that has one.
pub uninterp spec fn json_member(v: serde_json::Value, key: Seq<char>) -> Option<serde_json::Value>;

/// What `Value::as_str` gives: the text of a JSON string, `None` for any
/// other value.
pub uninterp spec fn json_text(v: serde_json::Value) -> Option<Seq<char>>;

/// `serde_json::from_str::<Value>`, with a parse error turned into `None`.
#[verifier::external_body]
fn parse_json(text: &str) -> (r: Option<serde_json::Value>)
    ensures
        r == parsed_json(text@),
{
    serde_json::from_str::<serde_json::Value>(text).ok()
}

/// `Value::get` with a string key.
#[verifier::external_body]
fn json_get<'a>(v: &'a serde_json::Value, key: &str) -> (r: Option<&'a serde_json::Value>)
    ensures
        r is Some <==> json_member(*v, key@) is Some,
        r matches Some(m) ==> json_member(*v, key@) == Some(*m),
{
    v.get(key)
}

/// `Value::as_str`.
#[verifier::external_body]
fn json_as_str(v: &serde_json::Value) -> (r: Option<&str>)
    ensures
        r is Some <==> json_text(*v) is Some,
        r matches Some(s) ==> json_text(*v) == Some(s@),
{
    v.as_str()
}

/// The `name` of a parsed error answer: the text of its `name` member when
/// it has one that is a string.
pub open spec fn answer_name(parsed: Option<serde_json::Value>) -> Option<Seq<char>> {
    match parsed {
        Some(v) => match json_member(v, "name"@) {
            Some(m) => json_text(m),
            None => None,
        },
        None => None,
    }
}

/// The name of an error answer is exactly the text of its `name` member,
/// whatever other members the answer has: none when the body did not parse,
/// none when it has no `name` member, and otherwise the member's text when
/// it is a JSON string and none when it is not.
pub proof fn lemma_answer_name_is_the_name_member(parsed: Option<serde_json::Value>)
    ensures
        parsed is None ==> answer_name(parsed) is None,
        parsed matches Some(v) ==> (json_member(v, "name"@) is None ==> answer_name(parsed) is None),
        parsed matches Some(v) ==> (json_member(v, "name"@) matches Some(m)
            ==> answer_name(parsed) == json_text(m)),
{
}

/// The `name` member of a parsed error answer, when it is a string.
pub fn parsed_answer_name(parsed: &Option<serde_json::Value>) -> (r: Option<String>)
    ensures
        opt_text(r) == answer_name(*parsed),
{
    match parsed {
        Some(v) => match json_get(v, "name") {
            Some(m) => match json_as_str(m) {
                Some(s) => Some(s.to_string()),
                None => None,
            },
            None => None,
        },
        None => None,
    }
}

/// The `name` field of the body of an error answer, when the body is JSON
/// with a string member `name`.
pub fn error_name(body: &str) -> (r: Option<String>)
    ensures
        opt_text(r) == answer_name(parsed_json(body@)),
{
    let parsed = parse_json(body);
    parsed_answer_name(&parsed)
}

} // verus!
