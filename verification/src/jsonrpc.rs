//! The JSON-RPC 2.0 wire protocol: `Content-Length` framing, the reading of
//! incoming messages, and the messages the client writes.
use crate::error::{error_text, is_message_of, wraps_outside_error, CopilotError, Result};
use crate::json::{
    as_str, get, lemma_view_fields_push, push_member, str_field, view_fields, Json, JsonValue,
};
use crate::text::{
    chars_of, decimal, has_prefix, is_whitespace, lemma_decimal_digits, lemma_decimal_shape,
    lemma_parse_decimal, parse_unsigned, parse_unsigned_range, push_decimal, push_str,
    range_equals, range_has_prefix, trim, trim_end, trim_range, trim_start,
};
use vstd::prelude::*;

verus! {

// ---------------------------------------------------------------------------
// Framing
// ---------------------------------------------------------------------------

/// The header line that announces a body of `n` bytes.
pub open spec fn content_length_line(n: nat) -> Seq<char> {
    "Content-Length: "@ + decimal(n) + "\r\n"@
}

/// The bytes of an ASCII text.
pub open spec fn ascii_bytes(s: Seq<char>) -> Seq<u8> {
    s.map_values(|c: char| c as u8)
}

/// A framed message: the `Content-Length` header, an empty line, the body.
pub open spec fn frame(body: Seq<u8>) -> Seq<u8> {
    ascii_bytes(content_length_line(body.len()) + "\r\n"@) + body
}

/// What one header line does to the reading of a message's headers.
#[derive(Debug, Clone, Copy, PartialEq, Eq, Structural)]
pub enum HeaderStep {
    /// More header lines follow; the body length read so far.
    Continue(usize),
    /// The headers are over; the body has this many bytes (none to read when 0).
    EndOfHeaders(usize),
}

/// The header prefix naming the body length.
pub open spec fn length_prefix() -> Seq<char> {
    "Content-Length: "@
}

/// Reading one header line, given the body length read so far: an empty
/// line ends the headers; a `Content-Length: ` line whose (trimmed) value is a
/// `usize` sets the length; any other line changes nothing.
pub open spec fn header_step(content_length: usize, line: Seq<char>) -> HeaderStep {
    if line == "\r\n"@ || line == "\n"@ {
        HeaderStep::EndOfHeaders(content_length)
    } else if has_prefix(line, length_prefix()) {
        match parse_unsigned(trim(line.skip(length_prefix().len() as int)), usize::MAX as nat) {
            Some(n) => HeaderStep::Continue(n as usize),
            None => HeaderStep::Continue(content_length),
        }
    } else {
        HeaderStep::Continue(content_length)
    }
}

/// Decides what a header line read from the peer means.
pub fn read_header_line(content_length: usize, line: &str) -> (r: HeaderStep)
    ensures
        r == header_step(content_length, line@),
{
    let cs = chars_of(line);
    let crlf = chars_of("\r\n");
    let lf = chars_of("\n");
    let prefix = chars_of("Content-Length: ");
    proof {
        reveal_strlit("\r\n");
        reveal_strlit("\n");
        reveal_strlit("Content-Length: ");
        assert(cs@.subrange(0, cs@.len() as int) =~= cs@);
    }
    let n = cs.len();
    if range_equals(&cs, 0, n, &crlf) || range_equals(&cs, 0, n, &lf) {
        return HeaderStep::EndOfHeaders(content_length);
    }
    if range_has_prefix(&cs, 0, n, &prefix) {
        let p = prefix.len();
        let (a, b) = trim_range(&cs, p, n);
        assert(cs@.subrange(p as int, n as int) =~= cs@.skip(p as int));
        match parse_unsigned_range(&cs, a, b, usize::MAX as u64) {
            Some(v) => HeaderStep::Continue(v as usize),
            None => HeaderStep::Continue(content_length),
        }
    } else {
        HeaderStep::Continue(content_length)
    }
}

/// Appends the bytes of an ASCII text.
fn push_ascii(out: &mut Vec<u8>, s: &str)
    requires
        forall|i: int| 0 <= i < s@.len() ==> (s@[i] as u32) < 128,
    ensures
        final(out)@ == old(out)@ + ascii_bytes(s@),
{
    let cs = chars_of(s);
    let mut i: usize = 0;
    while i < cs.len()
        invariant
            i <= cs@.len(),
            cs@ == s@,
            out@ == old(out)@ + ascii_bytes(cs@.take(i as int)),
        decreases cs.len() - i,
    {
        out.push(cs[i] as u8);
        i = i + 1;
        assert(ascii_bytes(cs@.take(i as int)) =~= ascii_bytes(cs@.take(i - 1)).push(
            cs@[i - 1] as u8,
        ));
    }
    assert(cs@.take(cs@.len() as int) =~= cs@);
}

/// Frames a message body for the wire.
pub fn encode_frame(body: &[u8]) -> (r: Vec<u8>)
    ensures
        r@ == frame(body@),
{
    let mut header = String::from_str("Content-Length: ");
    push_decimal(&mut header, body.len() as u64);
    push_str(&mut header, "\r\n\r\n");
    proof {
        reveal_strlit("Content-Length: ");
        reveal_strlit("\r\n\r\n");
        reveal_strlit("\r\n");
        lemma_decimal_digits(body@.len());
        assert forall|i: int| 0 <= i < header@.len() implies (header@[i] as u32) < 128 by {
            let d = decimal(body@.len());
            if 16 <= i < 16 + d.len() {
                assert(header@[i] == d[i - 16]);
            }
        }
        assert(header@ =~= content_length_line(body@.len()) + "\r\n"@);
    }
    let mut out: Vec<u8> = Vec::new();
    push_ascii(&mut out, header.as_str());
    let mut i: usize = 0;
    while i < body.len()
        invariant
            i <= body@.len(),
            out@ == ascii_bytes(header@) + body@.take(i as int),
        decreases body.len() - i,
    {
        out.push(body[i]);
        i = i + 1;
        assert(out@ =~= ascii_bytes(header@) + body@.take(i as int));
    }
    assert(body@.take(body@.len() as int) =~= body@);
    out
}

/// Reading back a frame: the header line of `encode_frame(body)` sets the body
/// length to `body.len()` from any earlier value, it is one line (its only
/// line feed is its last character), the empty line after it ends the
/// headers with that length, and the body follows right after.
pub proof fn lemma_frame_roundtrip(body: Seq<u8>, earlier: usize)
    requires
        body.len() <= usize::MAX,
    ensures
        frame(body) == ascii_bytes(content_length_line(body.len())) + ascii_bytes("\r\n"@) + body,
        header_step(earlier, content_length_line(body.len())) == HeaderStep::Continue(
            body.len() as usize,
        ),
        header_step(body.len() as usize, "\r\n"@) == HeaderStep::EndOfHeaders(
            body.len() as usize,
        ),
        content_length_line(body.len()).last() == '\n',
        forall|i: int|
            0 <= i < content_length_line(body.len()).len() - 1 ==> #[trigger] content_length_line(
                body.len(),
            )[i] != '\n',
{
    reveal_strlit("Content-Length: ");
    reveal_strlit("\r\n");
    reveal_strlit("\n");
    let n = body.len();
    let d = decimal(n);
    let line = content_length_line(n);
    lemma_decimal_digits(n);
    lemma_decimal_shape(n);
    lemma_parse_decimal(n, usize::MAX as nat);
    assert(ascii_bytes(line + "\r\n"@) =~= ascii_bytes(line) + ascii_bytes("\r\n"@));
    assert(line.len() > 2);
    assert(line != "\r\n"@ && line != "\n"@) by {
        assert(line[0] == 'C');
    }
    assert(has_prefix(line, length_prefix())) by {
        assert(line.take(16) =~= length_prefix());
    }
    let rest = line.skip(16);
    assert(rest =~= d + "\r\n"@);
    // Trimming the value drops the trailing line break and nothing else.
    assert(trim_start(rest) == rest) by {
        assert(rest[0] == d[0]);
    }
    assert(trim_end(rest) == trim_end(d)) by {
        reveal_strlit("\r");
        assert(rest.drop_last() =~= d + "\r"@);
        assert((d + "\r"@).drop_last() =~= d);
        assert(is_whitespace(rest.last()));
        assert(is_whitespace((d + "\r"@).last()));
        assert(trim_end(rest) == trim_end(rest.drop_last()));
        assert(trim_end(d + "\r"@) == trim_end((d + "\r"@).drop_last()));
    }
    assert(trim(d) == d);
    assert(trim_end(trim_start(d)) == d);
    assert(trim_start(d) == d) by {
        assert(crate::text::is_ascii_digit(d[0]));
    }
    assert(trim(rest) == d);
    assert forall|i: int| 0 <= i < line.len() - 1 implies #[trigger] line[i] != '\n' by {
        if 16 <= i < 16 + d.len() {
            assert(line[i] == d[i - 16]);
            assert(crate::text::is_ascii_digit(d[i - 16]));
        }
    }
}

// ---------------------------------------------------------------------------
// Messages
// ---------------------------------------------------------------------------

/// A request to the peer.
#[derive(Debug)]
pub struct JsonRpcRequest {
    pub jsonrpc: String,
    pub id: String,
    pub method: String,
    pub params: JsonValue,
}

/// The error member of a response.
#[derive(Debug)]
pub struct JsonRpcError {
    pub code: i32,
    pub message: String,
    pub data: Option<JsonValue>,
}

/// A response from the peer.
#[derive(Debug)]
pub struct JsonRpcResponse {
    pub jsonrpc: String,
    pub id: Option<String>,
    pub result: Option<JsonValue>,
    pub error: Option<JsonRpcError>,
}

/// A notification (a request that expects no response).
#[derive(Debug)]
pub struct JsonRpcNotification {
    pub jsonrpc: String,
    pub method: String,
    pub params: JsonValue,
}

/// How an incoming message is handled.
#[derive(Debug)]
pub enum IncomingMessage {
    /// A response to one of our requests (it names an id).
    Response(JsonRpcResponse),
    /// A request from the peer.
    Request(JsonRpcRequest),
    /// A notification from the peer.
    Notification(JsonRpcNotification),
    /// Neither of the above; it is dropped.
    Unrecognized,
}

/// An optional member, where `null` counts as absent.
pub open spec fn non_null(j: Option<Json>) -> Option<Json> {
    match j {
        Some(Json::Null) => None,
        other => other,
    }
}

/// A member read as an optional string: absent or `null` is `None`, a string
/// is `Some`, anything else does not decode.
pub open spec fn decode_opt_str(j: Option<Json>) -> Option<Option<Seq<char>>> {
    match non_null(j) {
        None => Some(None),
        Some(Json::Str(s)) => Some(Some(s)),
        Some(_) => None,
    }
}

/// `key` names at most one member of `j` (a derived decoder refuses an
/// object that repeats one of the fields it decodes).
pub open spec fn named_once(j: Json, key: Seq<char>) -> bool {
    match j {
        Json::Object(f) => key_once(f, key),
        _ => true,
    }
}

/// `key` names at most one of `fields`.
pub open spec fn key_once(fields: Seq<(Seq<char>, Json)>, key: Seq<char>) -> bool {
    forall|a: int, b: int|
        #![trigger fields[a], fields[b]]
        0 <= a < b < fields.len() && fields[a].0 == key ==> fields[b].0 != key
}

/// The parts of an error: an `i32` code, a string message and the data.
pub open spec fn error_parts(code: Option<Json>, message: Option<Json>, data: Option<Json>) -> Option<
    (i32, Seq<char>, Option<Json>),
> {
    match (code, as_str(message)) {
        (Some(Json::Int(c)), Some(m)) => if i32::MIN <= c <= i32::MAX {
            Some((c as i32, m, data))
        } else {
            None
        },
        _ => None,
    }
}

/// An error object, in either form a derived decoder takes: an object with
/// `code`, `message` and an optional `data`, or an array of exactly these
/// three (`null` data counting as absent).
pub open spec fn error_value(e: Json) -> Option<(i32, Seq<char>, Option<Json>)> {
    match e {
        Json::Object(_) => error_parts(get(e, "code"@), get(e, "message"@), non_null(get(e, "data"@))),
        Json::Array(items) => if items.len() == 3 {
            error_parts(Some(items[0]), Some(items[1]), non_null(Some(items[2])))
        } else {
            None
        },
        _ => None,
    }
}

/// The `error` member of a response: absent or `null` is `None`; otherwise
/// an error object.
pub open spec fn decode_error(j: Option<Json>) -> Option<Option<(i32, Seq<char>, Option<Json>)>> {
    match non_null(j) {
        None => Some(None),
        Some(e) => match error_value(e) {
            Some(x) => Some(Some(x)),
            None => None,
        },
    }
}

/// The view of a decoded response: version tag, id, result and error.
pub struct ResponseView {
    pub jsonrpc: Seq<char>,
    pub id: Option<Seq<char>>,
    pub result: Option<Json>,
    pub error: Option<(i32, Seq<char>, Option<Json>)>,
}

/// A response from its four parts: a string `jsonrpc`, an optional string
/// `id`, an optional `result` and an optional error.
pub open spec fn response_parts(
    jsonrpc: Option<Json>,
    id: Option<Json>,
    result: Option<Json>,
    error: Option<Json>,
) -> Option<ResponseView> {
    match (as_str(jsonrpc), decode_opt_str(id), decode_error(error)) {
        (Some(v), Some(id), Some(error)) => Some(
            ResponseView { jsonrpc: v, id, result: non_null(result), error },
        ),
        _ => None,
    }
}

/// Decoding a message as a response, in either form a derived decoder takes:
/// an object with those members (none of them repeated), or an array of
/// exactly those four.
pub open spec fn decode_response(j: Json) -> Option<ResponseView> {
    match j {
        Json::Object(_) => if named_once(j, "jsonrpc"@) && named_once(j, "id"@) && named_once(
            j,
            "result"@,
        ) && named_once(j, "error"@) {
            response_parts(get(j, "jsonrpc"@), get(j, "id"@), get(j, "result"@), get(j, "error"@))
        } else {
            None
        },
        Json::Array(items) => if items.len() == 4 {
            response_parts(Some(items[0]), Some(items[1]), Some(items[2]), Some(items[3]))
        } else {
            None
        },
        _ => None,
    }
}

/// Decoding a message as a request: string `jsonrpc`, `id` and `method`, and
/// `params` present; as an object with those members (none of them
/// repeated), or an array of exactly
/// those four.
pub open spec fn decode_request(j: Json) -> Option<(Seq<char>, Seq<char>, Seq<char>, Json)> {
    let parts = match j {
        Json::Object(_) => if named_once(j, "jsonrpc"@) && named_once(j, "id"@) && named_once(
            j,
            "method"@,
        ) && named_once(j, "params"@) {
            Some((get(j, "jsonrpc"@), get(j, "id"@), get(j, "method"@), get(j, "params"@)))
        } else {
            None
        },
        Json::Array(items) => if items.len() == 4 {
            Some((Some(items[0]), Some(items[1]), Some(items[2]), Some(items[3])))
        } else {
            None
        },
        _ => None,
    };
    match parts {
        Some((v, i, m, Some(p))) => match (as_str(v), as_str(i), as_str(m)) {
            (Some(v), Some(i), Some(m)) => Some((v, i, m, p)),
            _ => None,
        },
        _ => None,
    }
}

/// Decoding a message as a notification: string `jsonrpc` and `method`, and
/// `params` present; as an object with those members (none of them
/// repeated), or an array of exactly
/// those three.
pub open spec fn decode_notification(j: Json) -> Option<(Seq<char>, Seq<char>, Json)> {
    let parts = match j {
        Json::Object(_) => if named_once(j, "jsonrpc"@) && named_once(j, "method"@) && named_once(
            j,
            "params"@,
        ) {
            Some((get(j, "jsonrpc"@), get(j, "method"@), get(j, "params"@)))
        } else {
            None
        },
        Json::Array(items) => if items.len() == 3 {
            Some((Some(items[0]), Some(items[1]), Some(items[2])))
        } else {
            None
        },
        _ => None,
    };
    match parts {
        Some((v, m, Some(p))) => match (as_str(v), as_str(m)) {
            (Some(v), Some(m)) => Some((v, m, p)),
            _ => None,
        },
        _ => None,
    }
}

/// How a message is handled: a message that decodes as a request (it names
/// a string id and a method) is a request, else one that decodes as a
/// notification (a method and no string id) is a notification, else one that
/// decodes as a response and names an id is a response, else it is dropped.
pub open spec fn classify(j: Json) -> IncomingKind {
    match decode_request(j) {
        Some((v, id, method, params)) => IncomingKind::Request(v, id, method, params),
        None => match decode_notification(j) {
            Some((v, method, params)) => IncomingKind::Notification(v, method, params),
            None => match decode_response(j) {
                Some(r) if r.id is Some => IncomingKind::Response(r),
                _ => IncomingKind::Unrecognized,
            },
        },
    }
}

/// The view of how a message is handled.
pub enum IncomingKind {
    Response(ResponseView),
    /// Version tag, id, method and params.
    Request(Seq<char>, Seq<char>, Seq<char>, Json),
    /// Version tag, method and params.
    Notification(Seq<char>, Seq<char>, Json),
    Unrecognized,
}

impl JsonRpcError {
    pub open spec fn view(&self) -> (i32, Seq<char>, Option<Json>) {
        (
            self.code,
            self.message@,
            match self.data {
                Some(d) => Some(d@),
                None => None,
            },
        )
    }
}

impl JsonRpcResponse {
    pub open spec fn view(&self) -> ResponseView {
        ResponseView {
            jsonrpc: self.jsonrpc@,
            id: self.id.deep_view(),
            result: match self.result {
                Some(r) => Some(r@),
                None => None,
            },
            error: match self.error {
                Some(e) => Some(e@),
                None => None,
            },
        }
    }
}

impl IncomingMessage {
    pub open spec fn view(&self) -> IncomingKind {
        match self {
            IncomingMessage::Response(r) => IncomingKind::Response(r@),
            IncomingMessage::Request(q) => IncomingKind::Request(q.jsonrpc@, q.id@, q.method@, q.params@),
            IncomingMessage::Notification(n) => IncomingKind::Notification(n.jsonrpc@, n.method@, n.params@),
            IncomingMessage::Unrecognized => IncomingKind::Unrecognized,
        }
    }
}

/// Whether `key` names at most one member of `j`.
fn named_once_in(j: &JsonValue, key: &str) -> (r: bool)
    ensures
        r == named_once(j@, key@),
{
    match j {
        JsonValue::Object(fields) => {
            let ghost vf = view_fields(fields@);
            proof {
                crate::json::lemma_view_fields_len(fields@);
            }
            let k = String::from_str(key);
            let mut seen = false;
            let mut i: usize = 0;
            while i < fields.len()
                invariant
                    i <= fields@.len(),
                    vf == view_fields(fields@),
                    j@ == Json::Object(vf),
                    vf.len() == fields@.len(),
                    forall|x: int| 0 <= x < fields@.len() ==> #[trigger] vf[x] == (
                        fields@[x].0@,
                        fields@[x].1.view(),
                    ),
                    k@ == key@,
                    seen == exists|x: int| 0 <= x < i && #[trigger] vf[x].0 == key@,
                    key_once(vf.take(i as int), key@),
                decreases fields.len() - i,
            {
                if fields[i].0.eq(&k) {
                    if seen {
                        proof {
                            let x = choose|x: int| 0 <= x < i && #[trigger] vf[x].0 == key@;
                            assert(vf[x].0 == key@);
                            assert(vf[i as int].0 == key@);
                            assert(j@ == Json::Object(vf));
                            assert(!key_once(vf, key@)) by {
                                let a = vf[x];
                                let b = vf[i as int];
                            }
                        }
                        return false;
                    }
                    seen = true;
                    assert(vf[i as int].0 == key@);
                }
                proof {
                    let t = vf.take(i + 1);
                    assert forall|a: int, b: int|
                        #![trigger t[a], t[b]]
                        0 <= a < b < t.len() && t[a].0 == key@ implies t[b].0 != key@ by {
                        if b < i {
                            assert(vf.take(i as int)[a] == t[a] && vf.take(i as int)[b] == t[b]);
                        } else {
                            assert(t[a] == vf[a]);
                        }
                    }
                }
                i = i + 1;
            }
            assert(vf.take(vf.len() as int) =~= vf);
            true
        },
        _ => true,
    }
}

/// The view of an optional borrowed value.
pub open spec fn opt_view(j: Option<&JsonValue>) -> Option<Json> {
    match j {
        Some(v) => Some(v@),
        None => None,
    }
}

/// A member copied out, with `null` read as absent.
fn copy_non_null(j: Option<&JsonValue>) -> (r: Option<JsonValue>)
    ensures
        match r {
            Some(x) => non_null(opt_view(j)) == Some(x@),
            None => non_null(opt_view(j)) is None,
        },
{
    match j {
        Some(JsonValue::Null) => None,
        Some(v) => Some(v.copy()),
        None => None,
    }
}

/// A string value, copied out.
fn read_str(j: Option<&JsonValue>) -> (r: Option<String>)
    ensures
        r.deep_view() == as_str(opt_view(j)),
{
    match j {
        Some(JsonValue::Str(s)) => Some(s.clone()),
        _ => None,
    }
}

/// Decodes an error from its parts.
fn read_error_parts(
    code: Option<&JsonValue>,
    message: Option<&JsonValue>,
    data: Option<&JsonValue>,
) -> (r: Option<JsonRpcError>)
    ensures
        match error_parts(opt_view(code), opt_view(message), non_null(opt_view(data))) {
            Some(e) => r matches Some(x) && x@ == e,
            None => r is None,
        },
{
    let message = read_str(message);
    match (code, message) {
        (Some(JsonValue::Int(c)), Some(m)) => {
            if i32::MIN as i64 <= *c && *c <= i32::MAX as i64 {
                let data = copy_non_null(data);
                Some(JsonRpcError { code: *c as i32, message: m, data })
            } else {
                None
            }
        },
        _ => None,
    }
}

/// Decodes the `error` member of a response.
fn read_error(j: Option<&JsonValue>) -> (r: Option<Option<JsonRpcError>>)
    ensures
        match decode_error(opt_view(j)) {
            Some(None) => r == Some(None::<JsonRpcError>),
            Some(Some(e)) => r matches Some(Some(x)) && x@ == e,
            None => r is None,
        },
{
    match j {
        None => Some(None),
        Some(JsonValue::Null) => Some(None),
        Some(e) => {
            let parts = match e {
                JsonValue::Object(_) => read_error_parts(e.get("code"), e.get("message"), e.get("data")),
                JsonValue::Array(items) => {
                    proof {
                        crate::json::lemma_view_items_len(items@);
                    }
                    if items.len() == 3 {
                        read_error_parts(Some(&items[0]), Some(&items[1]), Some(&items[2]))
                    } else {
                        None
                    }
                },
                _ => None,
            };
            match parts {
                Some(x) => Some(Some(x)),
                None => None,
            }
        },
    }
}

/// Decodes an optional string member.
fn read_opt_str(j: Option<&JsonValue>) -> (r: Option<Option<String>>)
    ensures
        match decode_opt_str(opt_view(j)) {
            Some(s) => r matches Some(x) && x.deep_view() == s,
            None => r is None,
        },
{
    match j {
        None => Some(None),
        Some(JsonValue::Null) => Some(None),
        Some(JsonValue::Str(s)) => Some(Some(s.clone())),
        Some(_) => None,
    }
}

/// Decodes a response from its parts.
fn read_response_parts(
    jsonrpc: Option<&JsonValue>,
    id: Option<&JsonValue>,
    result: Option<&JsonValue>,
    error: Option<&JsonValue>,
) -> (r: Option<JsonRpcResponse>)
    ensures
        match response_parts(opt_view(jsonrpc), opt_view(id), opt_view(result), opt_view(error)) {
            Some(v) => r matches Some(x) && x@ == v,
            None => r is None,
        },
{
    let jsonrpc = read_str(jsonrpc);
    let id = read_opt_str(id);
    let error = read_error(error);
    match (jsonrpc, id, error) {
        (Some(jsonrpc), Some(id), Some(error)) => {
            let result = copy_non_null(result);
            Some(JsonRpcResponse { jsonrpc, id, result, error })
        },
        _ => None,
    }
}

/// Decodes a message as a response.
fn read_response(j: &JsonValue) -> (r: Option<JsonRpcResponse>)
    ensures
        match decode_response(j@) {
            Some(v) => r matches Some(x) && x@ == v,
            None => r is None,
        },
{
    match j {
        JsonValue::Object(_) => {
            if named_once_in(j, "jsonrpc") && named_once_in(j, "id") && named_once_in(j, "result")
                && named_once_in(j, "error") {
                read_response_parts(j.get("jsonrpc"), j.get("id"), j.get("result"), j.get("error"))
            } else {
                None
            }
        },
        JsonValue::Array(items) => {
            proof {
                crate::json::lemma_view_items_len(items@);
            }
            if items.len() == 4 {
                read_response_parts(Some(&items[0]), Some(&items[1]), Some(&items[2]), Some(&items[3]))
            } else {
                None
            }
        },
        _ => None,
    }
}

/// Decodes a message as a request.
fn read_request(j: &JsonValue) -> (r: Option<JsonRpcRequest>)
    ensures
        match decode_request(j@) {
            Some((v, i, m, p)) => r matches Some(q) && q.jsonrpc@ == v && q.id@ == i && q.method@
                == m && q.params@ == p,
            None => r is None,
        },
{
    let parts: Option<(Option<&JsonValue>, Option<&JsonValue>, Option<&JsonValue>, Option<&JsonValue>)> = match j {
        JsonValue::Object(_) => {
            if named_once_in(j, "jsonrpc") && named_once_in(j, "id") && named_once_in(j, "method")
                && named_once_in(j, "params") {
                Some((j.get("jsonrpc"), j.get("id"), j.get("method"), j.get("params")))
            } else {
                None
            }
        },
        JsonValue::Array(items) => {
            proof {
                crate::json::lemma_view_items_len(items@);
            }
            if items.len() == 4 {
                Some((Some(&items[0]), Some(&items[1]), Some(&items[2]), Some(&items[3])))
            } else {
                None
            }
        },
        _ => None,
    };
    match parts {
        Some((v, i, m, Some(p))) => match (read_str(v), read_str(i), read_str(m)) {
            (Some(v), Some(i), Some(m)) => Some(
                JsonRpcRequest { jsonrpc: v, id: i, method: m, params: p.copy() },
            ),
            _ => None,
        },
        _ => None,
    }
}

/// Decodes a message as a notification.
fn read_notification(j: &JsonValue) -> (r: Option<JsonRpcNotification>)
    ensures
        match decode_notification(j@) {
            Some((v, m, p)) => r matches Some(n) && n.jsonrpc@ == v && n.method@ == m && n.params@
                == p,
            None => r is None,
        },
{
    let parts: Option<(Option<&JsonValue>, Option<&JsonValue>, Option<&JsonValue>)> = match j {
        JsonValue::Object(_) => {
            if named_once_in(j, "jsonrpc") && named_once_in(j, "method") && named_once_in(j, "params") {
                Some((j.get("jsonrpc"), j.get("method"), j.get("params")))
            } else {
                None
            }
        },
        JsonValue::Array(items) => {
            proof {
                crate::json::lemma_view_items_len(items@);
            }
            if items.len() == 3 {
                Some((Some(&items[0]), Some(&items[1]), Some(&items[2])))
            } else {
                None
            }
        },
        _ => None,
    };
    match parts {
        Some((v, m, Some(p))) => match (read_str(v), read_str(m)) {
            (Some(v), Some(m)) => Some(JsonRpcNotification { jsonrpc: v, method: m, params: p.copy() }),
            _ => None,
        },
        _ => None,
    }
}

/// Decides how an incoming message is handled.
pub fn classify_message(j: &JsonValue) -> (r: IncomingMessage)
    ensures
        r@ == classify(j@),
{
    if let Some(q) = read_request(j) {
        return IncomingMessage::Request(q);
    }
    if let Some(n) = read_notification(j) {
        return IncomingMessage::Notification(n);
    }
    match read_response(j) {
        Some(resp) => {
            if resp.id.is_some() {
                IncomingMessage::Response(resp)
            } else {
                IncomingMessage::Unrecognized
            }
        },
        None => IncomingMessage::Unrecognized,
    }
}

/// What a response settles for the request that waits on it.
pub enum Settled {
    /// The request succeeded with this result.
    Value(Json),
    /// The peer reported an error: code, message and data (`null` when absent).
    Failed(i32, Seq<char>, Json),
    /// The response carries neither a result nor an error.
    Missing,
}

/// What a response settles: its error, else its result, else nothing.
pub open spec fn settle(r: ResponseView) -> Settled {
    match r.error {
        Some((code, message, data)) => Settled::Failed(
            code,
            message,
            match data {
                Some(d) => d,
                None => Json::Null,
            },
        ),
        None => match r.result {
            Some(v) => Settled::Value(v),
            None => Settled::Missing,
        },
    }
}

/// What a response settles for the request that waits on it: its error, else
/// its result, else a complaint that it carries neither.
pub fn response_outcome(response: JsonRpcResponse) -> (r: Result<JsonValue>)
    ensures
        match settle(response@) {
            Settled::Value(v) => r matches Ok(x) && x@ == v,
            Settled::Failed(code, message, data) => r matches Err(
                CopilotError::JsonRpc { code: c, message: m, data: Some(d) },
            ) && c == code && m@ == message && d@ == data,
            Settled::Missing => r matches Err(CopilotError::InvalidResponse(m)) && m@
                == "Missing result and error"@,
        },
{
    if let Some(error) = response.error {
        let data = match error.data {
            Some(d) => d,
            None => JsonValue::Null,
        };
        Err(CopilotError::jsonrpc_with_data(error.code, error.message, data))
    } else if let Some(result) = response.result {
        Ok(result)
    } else {
        Err(CopilotError::InvalidResponse(String::from_str("Missing result and error")))
    }
}

} // verus!

verus! {

// ---------------------------------------------------------------------------
// Outgoing messages
// ---------------------------------------------------------------------------

/// The JSON-RPC version tag.
pub open spec fn version_tag() -> Json {
    Json::Str("2.0"@)
}

/// A successful reply to request `id`.
pub open spec fn reply_ok(id: Seq<char>, result: Json) -> Json {
    Json::Object(seq![("jsonrpc"@, version_tag()), ("id"@, Json::Str(id)), ("result"@, result)])
}

/// A failed reply to request `id`.
pub open spec fn reply_err(id: Seq<char>, code: int, message: Seq<char>) -> Json {
    Json::Object(
        seq![
            ("jsonrpc"@, version_tag()),
            ("id"@, Json::Str(id)),
            ("error"@, Json::Object(seq![("code"@, Json::Int(code)), ("message"@, Json::Str(message))])),
        ],
    )
}

/// Code of the reply to a request whose handler failed.
pub open spec fn internal_error_code() -> int {
    -32603
}

/// Code of the reply to a request that no handler serves.
pub open spec fn method_not_found_code() -> int {
    -32601
}

/// The reply to a request from the peer, given what its handler did: no
/// handler, a result, or an error.
pub fn request_reply(id: &String, method: &String, outcome: Option<Result<JsonValue>>) -> (r:
    JsonValue)
    ensures
        outcome is None ==> r@ == reply_err(id@, method_not_found_code(), "Method not found: "@ + method@),
        outcome matches Some(Ok(v)) ==> r@ == reply_ok(id@, v@),
        outcome matches Some(Err(e)) ==> exists|m: Seq<char>|
            #![trigger is_message_of(e, m)]
            is_message_of(e, m) && r@ == reply_err(id@, internal_error_code(), m),
{
    let mut f = crate::json::no_members();
    push_member(&mut f, "jsonrpc", crate::json::json_str("2.0"));
    push_member(&mut f, "id", crate::json::json_string(id));
    match outcome {
        Some(Ok(v)) => {
            push_member(&mut f, "result", v);
            assert(view_fields(f@) =~= seq![
                ("jsonrpc"@, version_tag()),
                ("id"@, Json::Str(id@)),
                ("result"@, v@),
            ]);
            JsonValue::Object(f)
        },
        Some(Err(e)) => {
            let text = e.message();
            let mut ef = crate::json::no_members();
            push_member(&mut ef, "code", JsonValue::Int(-32603));
            push_member(&mut ef, "message", JsonValue::Str(text));
            assert(view_fields(ef@) =~= seq![
                ("code"@, Json::Int(-32603)),
                ("message"@, Json::Str(text@)),
            ]);
            push_member(&mut f, "error", JsonValue::Object(ef));
            assert(view_fields(f@) =~= seq![
                ("jsonrpc"@, version_tag()),
                ("id"@, Json::Str(id@)),
                ("error"@, Json::Object(seq![("code"@, Json::Int(-32603)), ("message"@, Json::Str(text@))])),
            ]);
            let r = JsonValue::Object(f);
            assert(r@ == reply_err(id@, internal_error_code(), text@));
            r
        },
        None => {
            let mut text = String::from_str("Method not found: ");
            push_str(&mut text, method.as_str());
            assert(text@ == "Method not found: "@ + method@);
            let mut ef = crate::json::no_members();
            push_member(&mut ef, "code", JsonValue::Int(-32601));
            push_member(&mut ef, "message", JsonValue::Str(text));
            assert(view_fields(ef@) =~= seq![
                ("code"@, Json::Int(-32601)),
                ("message"@, Json::Str(text@)),
            ]);
            push_member(&mut f, "error", JsonValue::Object(ef));
            assert(view_fields(f@) =~= seq![
                ("jsonrpc"@, version_tag()),
                ("id"@, Json::Str(id@)),
                ("error"@, Json::Object(seq![("code"@, Json::Int(-32601)), ("message"@, Json::Str(text@))])),
            ]);
            let r = JsonValue::Object(f);
            assert(r@ == reply_err(id@, method_not_found_code(), "Method not found: "@ + method@));
            r
        },
    }
}

/// A lowercase hexadecimal digit.
pub open spec fn is_lower_hex(c: char) -> bool {
    ('0' <= c && c <= '9') || ('a' <= c && c <= 'f')
}

/// The hyphenated text of a random (version 4, RFC variant) UUID, such as
/// `67e55044-10b1-426f-9247-bb680e5fe0c8`.
pub open spec fn is_v4_uuid_text(s: Seq<char>) -> bool {
    &&& s.len() == 36
    &&& forall|i: int|
        0 <= i < 36 ==> if i == 8 || i == 13 || i == 18 || i == 23 {
            s[i] == '-'
        } else {
            is_lower_hex(#[trigger] s[i])
        }
    &&& s[14] == '4'
    &&& (s[19] == '8' || s[19] == '9' || s[19] == 'a' || s[19] == 'b')
}

/// `Uuid::new_v4().to_string()`: a fresh random identifier, of which only
/// its form is stated, not its random digits (the call panics when the
/// system gives no random bytes).
#[verifier::external_body]
fn new_request_id() -> (r: String)
    ensures
        is_v4_uuid_text(r@),
{
    uuid::Uuid::new_v4().to_string()
}

/// The JSON form of a request.
pub open spec fn request_json(id: Seq<char>, method: Seq<char>, params: Json) -> Json {
    Json::Object(
        seq![
            ("jsonrpc"@, version_tag()),
            ("id"@, Json::Str(id)),
            ("method"@, Json::Str(method)),
            ("params"@, params),
        ],
    )
}

/// The JSON form of a notification.
pub open spec fn notification_json(method: Seq<char>, params: Json) -> Json {
    Json::Object(
        seq![("jsonrpc"@, version_tag()), ("method"@, Json::Str(method)), ("params"@, params)],
    )
}

impl JsonRpcRequest {
    /// A request for `method` with a fresh random id.
    pub fn new(method: String, params: JsonValue) -> (r: Self)
        ensures
            r.jsonrpc@ == "2.0"@,
            is_v4_uuid_text(r.id@),
            r.method@ == method@,
            r.params@ == params@,
    {
        let id = new_request_id();
        JsonRpcRequest { jsonrpc: String::from_str("2.0"), id, method, params }
    }

    /// The JSON form of this request.
    pub fn to_json(&self) -> (r: JsonValue)
        ensures
            r@ == (Json::Object(
                seq![
                    ("jsonrpc"@, Json::Str(self.jsonrpc@)),
                    ("id"@, Json::Str(self.id@)),
                    ("method"@, Json::Str(self.method@)),
                    ("params"@, self.params@),
                ],
            )),
    {
        let mut f = crate::json::no_members();
        push_member(&mut f, "jsonrpc", crate::json::json_string(&self.jsonrpc));
        push_member(&mut f, "id", crate::json::json_string(&self.id));
        push_member(&mut f, "method", crate::json::json_string(&self.method));
        push_member(&mut f, "params", self.params.copy());
        assert(view_fields(f@) =~= seq![
            ("jsonrpc"@, Json::Str(self.jsonrpc@)),
            ("id"@, Json::Str(self.id@)),
            ("method"@, Json::Str(self.method@)),
            ("params"@, self.params@),
        ]);
        JsonValue::Object(f)
    }
}

impl JsonRpcNotification {
    /// A notification for `method`.
    pub fn new(method: String, params: JsonValue) -> (r: Self)
        ensures
            r.jsonrpc@ == "2.0"@,
            r.method@ == method@,
            r.params@ == params@,
    {
        JsonRpcNotification { jsonrpc: String::from_str("2.0"), method, params }
    }

    /// The JSON form of this notification.
    pub fn to_json(&self) -> (r: JsonValue)
        ensures
            r@ == (Json::Object(
                seq![
                    ("jsonrpc"@, Json::Str(self.jsonrpc@)),
                    ("method"@, Json::Str(self.method@)),
                    ("params"@, self.params@),
                ],
            )),
    {
        let mut f = crate::json::no_members();
        push_member(&mut f, "jsonrpc", crate::json::json_string(&self.jsonrpc));
        push_member(&mut f, "method", crate::json::json_string(&self.method));
        push_member(&mut f, "params", self.params.copy());
        assert(view_fields(f@) =~= seq![
            ("jsonrpc"@, Json::Str(self.jsonrpc@)),
            ("method"@, Json::Str(self.method@)),
            ("params"@, self.params@),
        ]);
        JsonValue::Object(f)
    }
}

} // verus!

verus! {

// ---------------------------------------------------------------------------
// Laws
// ---------------------------------------------------------------------------

/// The member names a reply uses are pairwise different.
proof fn lemma_reply_names()
    ensures
        "jsonrpc"@ != "id"@,
        "jsonrpc"@ != "result"@,
        "jsonrpc"@ != "error"@,
        "id"@ != "result"@,
        "id"@ != "error"@,
        "result"@ != "error"@,
        "code"@ != "message"@,
        "code"@ != "data"@,
        "message"@ != "data"@,
        "method"@ != "jsonrpc"@,
        "method"@ != "id"@,
        "method"@ != "result"@,
        "method"@ != "error"@,
{
    reveal_strlit("method");
    reveal_strlit("jsonrpc");
    reveal_strlit("id");
    reveal_strlit("result");
    reveal_strlit("error");
    reveal_strlit("code");
    reveal_strlit("message");
    reveal_strlit("data");
    assert("jsonrpc"@.len() != "id"@.len());
    assert("jsonrpc"@.len() != "result"@.len());
    assert("jsonrpc"@.len() != "error"@.len());
    assert("id"@.len() != "result"@.len());
    assert("id"@.len() != "error"@.len());
    assert("result"@.len() != "error"@.len());
    assert("code"@.len() != "message"@.len());
    assert("code"@[0] != "data"@[0]);
    assert("message"@.len() != "data"@.len());
    assert("method"@[0] != "jsonrpc"@[0]);
    assert("method"@[0] != "id"@[0]);
    assert("method"@[0] != "result"@[0]);
    assert("method"@[0] != "error"@[0]);
}

/// A successful reply, read back by the peer that sent the request, settles
/// that request with the reply's result, provided the result is not `null`
/// (a `null` result reads as absent: see `reply_null_result_reads_missing`).
pub proof fn reply_ok_read_back(id: Seq<char>, result: Json)
    requires
        result != Json::Null,
    ensures
        classify(reply_ok(id, result)) == IncomingKind::Response(
            ResponseView { jsonrpc: "2.0"@, id: Some(id), result: Some(result), error: None },
        ),
        settle(ResponseView { jsonrpc: "2.0"@, id: Some(id), result: Some(result), error: None }) == Settled::Value(
            result,
        ),
{
    lemma_reply_names();
    let fields = seq![("jsonrpc"@, version_tag()), ("id"@, Json::Str(id)), ("result"@, result)];
    crate::json::lemma_lookup_unique(fields, 0);
    crate::json::lemma_lookup_unique(fields, 1);
    crate::json::lemma_lookup_unique(fields, 2);
    crate::json::lemma_lookup_absent(fields, "error"@);
    crate::json::lemma_lookup_absent(fields, "method"@);
}

/// A reply whose result is `null` reads back as carrying neither a result
/// nor an error.
pub proof fn reply_null_result_reads_missing(id: Seq<char>)
    ensures
        classify(reply_ok(id, Json::Null)) == IncomingKind::Response(
            ResponseView { jsonrpc: "2.0"@, id: Some(id), result: None, error: None },
        ),
        settle(ResponseView { jsonrpc: "2.0"@, id: Some(id), result: None, error: None }) == Settled::Missing,
{
    lemma_reply_names();
    let fields = seq![("jsonrpc"@, version_tag()), ("id"@, Json::Str(id)), ("result"@, Json::Null)];
    crate::json::lemma_lookup_unique(fields, 0);
    crate::json::lemma_lookup_unique(fields, 1);
    crate::json::lemma_lookup_unique(fields, 2);
    crate::json::lemma_lookup_absent(fields, "error"@);
    crate::json::lemma_lookup_absent(fields, "method"@);
}

/// A failed reply, read back by the peer that sent the request, settles that
/// request with the reply's code and message, and `null` data.
pub proof fn reply_err_read_back(id: Seq<char>, code: i32, message: Seq<char>)
    ensures
        classify(reply_err(id, code as int, message)) == IncomingKind::Response(
            ResponseView { jsonrpc: "2.0"@, id: Some(id), result: None, error: Some((code, message, None)) },
        ),
        settle(ResponseView { jsonrpc: "2.0"@, id: Some(id), result: None, error: Some((code, message, None)) })
            == Settled::Failed(code, message, Json::Null),
{
    lemma_reply_names();
    let inner = seq![("code"@, Json::Int(code as int)), ("message"@, Json::Str(message))];
    let err = Json::Object(inner);
    let fields = seq![("jsonrpc"@, version_tag()), ("id"@, Json::Str(id)), ("error"@, err)];
    crate::json::lemma_lookup_unique(fields, 0);
    crate::json::lemma_lookup_unique(fields, 1);
    crate::json::lemma_lookup_unique(fields, 2);
    crate::json::lemma_lookup_absent(fields, "result"@);
    crate::json::lemma_lookup_absent(fields, "method"@);
    crate::json::lemma_lookup_unique(inner, 0);
    crate::json::lemma_lookup_unique(inner, 1);
    crate::json::lemma_lookup_absent(inner, "data"@);
}

} // verus!

verus! {

/// A request from the peer, in the form this library writes requests,
/// reaches the handler of its method with its id and parameters.
pub proof fn request_reads_as_request(id: Seq<char>, method: Seq<char>, params: Json)
    ensures
        classify(request_json(id, method, params)) == IncomingKind::Request("2.0"@, id, method, params),
{
    lemma_reply_names();
    reveal_strlit("method");
    reveal_strlit("params");
    reveal_strlit("id");
    reveal_strlit("jsonrpc");
    assert("method"@[0] != "params"@[0]);
    assert("params"@[0] != "id"@[0]);
    assert("params"@[0] != "jsonrpc"@[0]);
    let fields = seq![
        ("jsonrpc"@, version_tag()),
        ("id"@, Json::Str(id)),
        ("method"@, Json::Str(method)),
        ("params"@, params),
    ];
    crate::json::lemma_lookup_unique(fields, 0);
    crate::json::lemma_lookup_unique(fields, 1);
    crate::json::lemma_lookup_unique(fields, 2);
    crate::json::lemma_lookup_unique(fields, 3);
}

/// A notification from the peer, in the form this library writes them,
/// reaches the notification handler with its method and parameters.
pub proof fn notification_reads_as_notification(method: Seq<char>, params: Json)
    ensures
        classify(notification_json(method, params)) == IncomingKind::Notification("2.0"@, method, params),
{
    lemma_reply_names();
    reveal_strlit("method");
    reveal_strlit("params");
    reveal_strlit("id");
    reveal_strlit("jsonrpc");
    assert("method"@[0] != "params"@[0]);
    assert("params"@[0] != "id"@[0]);
    assert("params"@[0] != "jsonrpc"@[0]);
    let fields = seq![("jsonrpc"@, version_tag()), ("method"@, Json::Str(method)), ("params"@, params)];
    crate::json::lemma_lookup_unique(fields, 0);
    crate::json::lemma_lookup_unique(fields, 1);
    crate::json::lemma_lookup_unique(fields, 2);
    crate::json::lemma_lookup_absent(fields, "id"@);
}

} // verus!
