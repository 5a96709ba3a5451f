//! The browser side of inno-creed: the native messaging host that the
//! extension starts once per message, and its registration with Chrome and
//! Edge.
//!
//! Protocol: a 4-byte length in the machine's byte order, then that many
//! bytes of UTF-8 JSON, in both directions. The host reads one message,
//! stores or clears the credential cache, answers with one acknowledgement
//! and exits.

use vstd::prelude::*;

use crate::platform::Platform;
use crate::text::{join_text, has_prefix, is_first_index, joined, path_join, position_of, text_eq};

verus! {

/// The order of the bytes of the length prefix.
#[derive(Clone, Copy, Debug, PartialEq, Eq, Structural)]
pub enum ByteOrder {
    Little,
    Big,
}

/// The four bytes of `n`, least significant first.
pub open spec fn le_bytes(n: nat) -> Seq<u8> {
    seq![
        (n % 256) as u8,
        ((n / 256) % 256) as u8,
        ((n / 65536) % 256) as u8,
        ((n / 16777216) % 256) as u8,
    ]
}

/// The four bytes of `n` in `order`.
pub open spec fn u32_bytes(order: ByteOrder, n: nat) -> Seq<u8> {
    let b = le_bytes(n);
    match order {
        ByteOrder::Little => b,
        ByteOrder::Big => seq![b[3], b[2], b[1], b[0]],
    }
}

/// The number that the four bytes `b` give in `order`.
pub open spec fn u32_value(order: ByteOrder, b: Seq<u8>) -> nat {
    match order {
        ByteOrder::Little => (b[0] + 256 * b[1] + 65536 * b[2] + 16777216 * b[3]) as nat,
        ByteOrder::Big => (b[3] + 256 * b[2] + 65536 * b[1] + 16777216 * b[0]) as nat,
    }
}

/// A message on the wire: its length, cut to 32 bits, in `order`, then the
/// body.
pub open spec fn frame(order: ByteOrder, body: Seq<u8>) -> Seq<u8> {
    u32_bytes(order, body.len() % 4294967296) + body
}

/// `u32::from_ne_bytes` on the bytes 1, 0, 0, 0. The byte order of the
/// machine decides the result: 1 on a little-endian machine, `0x0100_0000` on
/// a big-endian one; nothing else can come back.
#[verifier::external_body]
fn native_order_probe() -> (r: u32)
    ensures
        r == 1 || r == 0x0100_0000,
{
    u32::from_ne_bytes([1, 0, 0, 0])
}

/// The byte order in which the bytes 1, 0, 0, 0 read as `probe`: little
/// endian when they read as 1, big endian otherwise.
pub fn byte_order_from_probe(probe: u32) -> (order: ByteOrder)
    ensures
        order == if probe == 1 {
            ByteOrder::Little
        } else {
            ByteOrder::Big
        },
        (probe == 1 || probe == 0x0100_0000) ==> u32_value(order, seq![1u8, 0u8, 0u8, 0u8]) == probe,
{
    if probe == 1 {
        ByteOrder::Little
    } else {
        ByteOrder::Big
    }
}

/// The byte order of this machine, which the browser uses for the length
/// prefix. Which of the two comes back is up to the machine.
pub fn native_byte_order() -> (order: ByteOrder)
    ensures
        order == ByteOrder::Little || order == ByteOrder::Big,
{
    byte_order_from_probe(native_order_probe())
}

fn u32_to_bytes(order: ByteOrder, n: u32) -> (b: [u8; 4])
    ensures
        b@ == u32_bytes(order, n as nat),
{
    let b0 = (n % 256) as u8;
    let b1 = ((n / 256) % 256) as u8;
    let b2 = ((n / 65536) % 256) as u8;
    let b3 = ((n / 16777216) % 256) as u8;
    let b = match order {
        ByteOrder::Little => [b0, b1, b2, b3],
        ByteOrder::Big => [b3, b2, b1, b0],
    };
    assert(b@ =~= u32_bytes(order, n as nat));
    b
}

/// The length that the prefix `prefix` announces (the reading half of
/// `read_message`).
pub fn message_length(order: ByteOrder, prefix: [u8; 4]) -> (n: u32)
    ensures
        n as nat == u32_value(order, prefix@),
{
    let (b0, b1, b2, b3) = match order {
        ByteOrder::Little => (prefix[0] as u32, prefix[1] as u32, prefix[2] as u32, prefix[3] as u32),
        ByteOrder::Big => (prefix[3] as u32, prefix[2] as u32, prefix[1] as u32, prefix[0] as u32),
    };
    b0 + 256 * b1 + 65536 * b2 + 16777216 * b3
}

/// A message as written to the browser: the body's length cut to 32 bits in
/// `order`, then the body (the framing half of `write_message`).
pub fn frame_message(order: ByteOrder, body: &[u8]) -> (out: Vec<u8>)
    ensures
        out@ == frame(order, body@),
{
    let len: u64 = body.len() as u64;
    let n: u32 = (len % 4294967296) as u32;
    let prefix = u32_to_bytes(order, n);
    let mut out: Vec<u8> = Vec::new();
    out.push(prefix[0]);
    out.push(prefix[1]);
    out.push(prefix[2]);
    out.push(prefix[3]);
    assert(out@ =~= u32_bytes(order, body@.len() % 4294967296));
    let mut i: usize = 0;
    while i < body.len()
        invariant
            i <= body@.len(),
            out@ == u32_bytes(order, body@.len() % 4294967296) + body@.subrange(0, i as int),
        decreases body@.len() - i,
    {
        out.push(body[i]);
        i = i + 1;
        assert(out@ =~= u32_bytes(order, body@.len() % 4294967296) + body@.subrange(0, i as int));
    }
    assert(body@.subrange(0, body@.len() as int) =~= body@);
    out
}

/// What the reader takes from a frame is what the writer framed: the prefix
/// announces the body's length, and the body follows it unchanged, for any
/// body shorter than 4 GiB.
pub proof fn lemma_frame_round_trip(order: ByteOrder, body: Seq<u8>)
    requires
        body.len() < 4294967296,
    ensures
        frame(order, body).len() == body.len() + 4,
        u32_value(order, frame(order, body).subrange(0, 4)) == body.len(),
        frame(order, body).subrange(4, frame(order, body).len() as int) == body,
{
    let f = frame(order, body);
    let n = body.len();
    assert(f.subrange(4, f.len() as int) =~= body);
    assert(f.subrange(0, 4) =~= u32_bytes(order, n));
    let b0 = n % 256;
    let b1 = (n / 256) % 256;
    let b2 = (n / 65536) % 256;
    let b3 = (n / 16777216) % 256;
    assert(b0 + 256 * b1 + 65536 * b2 + 16777216 * b3 == n) by (nonlinear_arith)
        requires
            n < 4294967296,
            b0 == n % 256,
            b1 == (n / 256) % 256,
            b2 == (n / 65536) % 256,
            b3 == (n / 16777216) % 256,
    ;
}

/// The members of an incoming message that the host reads: `clear` when it
/// is a boolean, `authToken` and `signKey` when they are strings.
#[derive(Clone, Debug, PartialEq, Eq)]
pub struct HostMessage {
    pub clear: Option<bool>,
    pub auth_token: Option<String>,
    pub sign_key: Option<String>,
}

/// A top-level member value of a JSON object, as far as the host tells
/// values apart: a boolean, a string, or anything else.
#[derive(Clone, Debug, PartialEq, Eq)]
pub enum JsonMember {
    Bool(bool),
    Text(String),
    Other,
}

pub enum JsonMemberView {
    Bool(bool),
    Text(Seq<char>),
    Other,
}

impl View for JsonMember {
    type V = JsonMemberView;

    open spec fn view(&self) -> JsonMemberView {
        match self {
            JsonMember::Bool(b) => JsonMemberView::Bool(*b),
            JsonMember::Text(t) => JsonMemberView::Text(t@),
            JsonMember::Other => JsonMemberView::Other,
        }
    }
}

/// The members of a parsed object, each by its view.
pub open spec fn json_members_view(v: Seq<(String, JsonMember)>) -> Seq<(Seq<char>, JsonMemberView)> {
    v.map_values(|m: (String, JsonMember)| (m.0@, m.1@))
}

/// The top-level members of a JSON body, in the order `serde_json`'s map
/// keeps them (no member when the body is JSON but not an object); `None`
/// when the body is not JSON.
pub uninterp spec fn json_members(body: Seq<u8>) -> Option<Seq<(Seq<char>, JsonMemberView)>>;

/// `serde_json::from_slice` into a `serde_json::Value`; the members of an
/// object, each value told apart as a boolean, a string or something else.
/// The parse fails exactly when the body is not JSON (as `serde_json`
/// defines it); the members are a function of the body alone, left to the
/// name `json_members`.
#[verifier::external_body]
fn parse_json_members(body: &[u8]) -> (r: Option<Vec<(String, JsonMember)>>)
    ensures
        r is None <==> json_members(body@) is None,
        r matches Some(v) ==> json_members(body@) == Some(json_members_view(v@)),
{
    let value: serde_json::Value = serde_json::from_slice(body).ok()?;
    Some(match value {
        serde_json::Value::Object(map) => map.into_iter().map(|(k, v)| (k, match v {
            serde_json::Value::Bool(b) => JsonMember::Bool(b),
            serde_json::Value::String(t) => JsonMember::Text(t),
            _ => JsonMember::Other,
        })).collect(),
        _ => Vec::new(),
    })
}

/// The value of the first member named `key`.
pub open spec fn member_value(ms: Seq<(Seq<char>, JsonMemberView)>, key: Seq<char>) -> Option<JsonMemberView>
    decreases ms.len(),
{
    if ms.len() == 0 {
        None
    } else if ms[0].0 == key {
        Some(ms[0].1)
    } else {
        member_value(ms.drop_first(), key)
    }
}

/// The member `key` when it is a boolean.
pub open spec fn bool_member(ms: Seq<(Seq<char>, JsonMemberView)>, key: Seq<char>) -> Option<bool> {
    match member_value(ms, key) {
        Some(JsonMemberView::Bool(b)) => Some(b),
        _ => None,
    }
}

/// The member `key` when it is a string.
pub open spec fn text_member(ms: Seq<(Seq<char>, JsonMemberView)>, key: Seq<char>) -> Option<Seq<char>> {
    match member_value(ms, key) {
        Some(JsonMemberView::Text(t)) => Some(t),
        _ => None,
    }
}

/// The members `clear` (when a boolean), `authToken` and `signKey` (when
/// strings) of a message body; `None` when it is not JSON.
pub open spec fn message_members(body: Seq<u8>) -> Option<(Option<bool>, Option<Seq<char>>, Option<Seq<char>>)> {
    match json_members(body) {
        None => None,
        Some(ms) => Some((bool_member(ms, "clear"@), text_member(ms, "authToken"@), text_member(ms, "signKey"@))),
    }
}

/// The position of the first member named `key`.
fn find_member(ms: &Vec<(String, JsonMember)>, key: &str) -> (r: Option<usize>)
    ensures
        match r {
            Some(i) => i < ms@.len() && member_value(json_members_view(ms@), key@) == Some(ms@[i as int].1@),
            None => member_value(json_members_view(ms@), key@) is None,
        },
{
    let ghost all = json_members_view(ms@);
    let mut i: usize = 0;
    assert(all.skip(0) =~= all);
    while i < ms.len()
        invariant
            all == json_members_view(ms@),
            i <= ms@.len(),
            member_value(all, key@) == member_value(all.skip(i as int), key@),
        decreases ms@.len() - i,
    {
        if text_eq(ms[i].0.as_str(), key) {
            assert(all.skip(i as int)[0] == (ms@[i as int].0@, ms@[i as int].1@));
            return Some(i);
        }
        assert(all.skip(i as int).drop_first() =~= all.skip(i + 1));
        i = i + 1;
    }
    None
}

fn bool_of(ms: &Vec<(String, JsonMember)>, key: &str) -> (r: Option<bool>)
    ensures
        r == bool_member(json_members_view(ms@), key@),
{
    match find_member(ms, key) {
        Some(i) => match &ms[i].1 {
            JsonMember::Bool(b) => Some(*b),
            _ => None,
        },
        None => None,
    }
}

fn text_of(ms: &Vec<(String, JsonMember)>, key: &str) -> (r: Option<String>)
    ensures
        r.deep_view() == text_member(json_members_view(ms@), key@),
{
    match find_member(ms, key) {
        Some(i) => match &ms[i].1 {
            JsonMember::Text(t) => Some(t.clone()),
            _ => None,
        },
        None => None,
    }
}

/// The message in a body: `clear` when it is a boolean, `authToken` and
/// `signKey` when they are strings; `None` when the body is not JSON.
pub fn parse_host_message(body: &[u8]) -> (r: Option<HostMessage>)
    ensures
        r is None <==> message_members(body@) is None,
        r matches Some(m) ==> message_members(body@) == Some(
            (m.clear, m.auth_token.deep_view(), m.sign_key.deep_view()),
        ),
{
    match parse_json_members(body) {
        None => None,
        Some(ms) => Some(
            HostMessage {
                clear: bool_of(&ms, "clear"),
                auth_token: text_of(&ms, "authToken"),
                sign_key: text_of(&ms, "signKey"),
            },
        ),
    }
}

pub open spec fn prefix_failed_message() -> Seq<char> {
    "stdin에서 길이 프리픽스 읽기 실패(브라우저가 아닌 다른 곳에서 실행한 건 아닌지)"@
}

pub open spec fn body_failed_message() -> Seq<char> {
    "stdin 본문 읽기 실패"@
}

pub open spec fn json_failed_message() -> Seq<char> {
    "네이티브 메시지 JSON 파싱 실패"@
}

/// What reading one message gives for the prefix bytes and body bytes that
/// arrived: an error when the prefix is not four bytes, when the body is not
/// as long as the prefix announces, or when it is not JSON; else the members.
pub open spec fn read_outcome(order: ByteOrder, prefix: Seq<u8>, body: Seq<u8>) -> Result<
    (Option<bool>, Option<Seq<char>>, Option<Seq<char>>),
    Seq<char>,
> {
    if prefix.len() != 4 {
        Err(prefix_failed_message())
    } else if body.len() != u32_value(order, prefix) {
        Err(body_failed_message())
    } else {
        match message_members(body) {
            None => Err(json_failed_message()),
            Some(m) => Ok(m),
        }
    }
}

/// Reads one message from what arrived: the length prefix (four bytes when
/// the input had them) and the body (as many bytes as the input had, up to
/// the announced length).
pub fn read_host_message(order: ByteOrder, prefix: &[u8], body: &[u8]) -> (r: Result<HostMessage, String>)
    ensures
        match r {
            Ok(m) => read_outcome(order, prefix@, body@) == Ok::<_, Seq<char>>(
                (m.clear, m.auth_token.deep_view(), m.sign_key.deep_view()),
            ),
            Err(e) => read_outcome(order, prefix@, body@) == Err::<
                (Option<bool>, Option<Seq<char>>, Option<Seq<char>>),
                Seq<char>,
            >(e@),
        },
{
    if prefix.len() != 4 {
        return Err(String::from_str(
            "stdin에서 길이 프리픽스 읽기 실패(브라우저가 아닌 다른 곳에서 실행한 건 아닌지)",
        ));
    }
    let len = message_length(order, [prefix[0], prefix[1], prefix[2], prefix[3]]);
    proof {
        assert(seq![prefix@[0], prefix@[1], prefix@[2], prefix@[3]] =~= prefix@);
    }
    if body.len() as u64 != len as u64 {
        return Err(String::from_str("stdin 본문 읽기 실패"));
    }
    match parse_host_message(body) {
        None => Err(String::from_str("네이티브 메시지 JSON 파싱 실패")),
        Some(m) => Ok(m),
    }
}

/// What the host does with a message.
#[derive(Clone, Debug, PartialEq, Eq)]
pub enum HostCommand {
    /// Delete the credential cache.
    ClearCache,
    /// Store the two credentials in the cache.
    WriteCache { auth_token: String, sign_key: String },
    /// Refuse the message, with this error.
    Reject(String),
}

pub enum HostCommandView {
    ClearCache,
    WriteCache { auth_token: Seq<char>, sign_key: Seq<char> },
    Reject(Seq<char>),
}

impl View for HostCommand {
    type V = HostCommandView;

    open spec fn view(&self) -> HostCommandView {
        match self {
            HostCommand::ClearCache => HostCommandView::ClearCache,
            HostCommand::WriteCache { auth_token, sign_key } => HostCommandView::WriteCache {
                auth_token: auth_token@,
                sign_key: sign_key@,
            },
            HostCommand::Reject(m) => HostCommandView::Reject(m@),
        }
    }
}

pub open spec fn missing_credentials_message() -> Seq<char> {
    "authToken/signKey 누락 또는 빈 값"@
}

/// The command for a message: `clear: true` clears the cache whatever else
/// it holds; otherwise both credentials, present and not empty, are stored;
/// anything else is refused.
pub open spec fn command_of(
    clear: Option<bool>,
    auth_token: Option<Seq<char>>,
    sign_key: Option<Seq<char>>,
) -> HostCommandView {
    if clear == Some(true) {
        HostCommandView::ClearCache
    } else {
        match (auth_token, sign_key) {
            (Some(a), Some(k)) => if a.len() > 0 && k.len() > 0 {
                HostCommandView::WriteCache { auth_token: a, sign_key: k }
            } else {
                HostCommandView::Reject(missing_credentials_message())
            },
            _ => HostCommandView::Reject(missing_credentials_message()),
        }
    }
}

/// What the host does with a message, in terms of its members: `clear: true`
/// clears the cache; otherwise two present, non-empty credentials of any
/// length are stored exactly as they came; otherwise the message is refused
/// with the missing-credentials error.
pub proof fn lemma_command_decision(
    clear: Option<bool>,
    auth_token: Option<Seq<char>>,
    sign_key: Option<Seq<char>>,
)
    ensures
        clear == Some(true) ==> command_of(clear, auth_token, sign_key) == HostCommandView::ClearCache,
        clear != Some(true) ==> match (auth_token, sign_key) {
            (Some(a), Some(k)) => (a.len() > 0 && k.len() > 0) ==> command_of(clear, auth_token, sign_key)
                == (HostCommandView::WriteCache { auth_token: a, sign_key: k }),
            _ => true,
        },
        clear != Some(true) && (auth_token is None || sign_key is None || auth_token == Some(Seq::<char>::empty())
            || sign_key == Some(Seq::<char>::empty())) ==> command_of(clear, auth_token, sign_key)
            == HostCommandView::Reject("authToken/signKey 누락 또는 빈 값"@),
{
}

impl HostMessage {
    /// What the host does with this message (the decision of `run`).
    pub fn command(&self) -> (c: HostCommand)
        ensures
            c@ == command_of(self.clear, self.auth_token.deep_view(), self.sign_key.deep_view()),
    {
        if self.clear == Some(true) {
            return HostCommand::ClearCache;
        }
        match (&self.auth_token, &self.sign_key) {
            (Some(a), Some(k)) => {
                if a.as_str().unicode_len() > 0 && k.as_str().unicode_len() > 0 {
                    HostCommand::WriteCache { auth_token: a.clone(), sign_key: k.clone() }
                } else {
                    HostCommand::Reject(String::from_str("authToken/signKey 누락 또는 빈 값"))
                }
            },
            _ => HostCommand::Reject(String::from_str("authToken/signKey 누락 또는 빈 값")),
        }
    }
}

/// The acknowledgement sent back: `{"ok": true}`, or `{"ok": false,
/// "error": ...}`.
#[derive(Clone, Debug, PartialEq, Eq)]
pub struct Ack {
    pub ok: bool,
    pub error: Option<String>,
}

/// The acknowledgement of an outcome: success, or the error's text.
pub fn ack(result: Result<(), String>) -> (a: Ack)
    ensures
        result is Ok ==> a.ok && a.error is None,
        result matches Err(e) ==> !a.ok && a.error == Some(e),
{
    match result {
        Ok(()) => Ack { ok: true, error: None },
        Err(e) => Ack { ok: false, error: Some(e) },
    }
}

/// A JSON member value as the host writes it.
#[derive(Clone, Debug, PartialEq, Eq)]
pub enum JsonValue {
    Bool(bool),
    Text(String),
    Number(u64),
    TextList(Vec<String>),
}

pub enum JsonValueView {
    Bool(bool),
    Text(Seq<char>),
    Number(u64),
    TextList(Seq<Seq<char>>),
}

impl View for JsonValue {
    type V = JsonValueView;

    open spec fn view(&self) -> JsonValueView {
        match self {
            JsonValue::Bool(b) => JsonValueView::Bool(*b),
            JsonValue::Text(t) => JsonValueView::Text(t@),
            JsonValue::Number(n) => JsonValueView::Number(*n),
            JsonValue::TextList(l) => JsonValueView::TextList(l.deep_view()),
        }
    }
}

/// The members of a flat JSON object, each by its view.
pub open spec fn members_view(members: Seq<(String, JsonValue)>) -> Seq<(Seq<char>, JsonValueView)> {
    members.map_values(|m: (String, JsonValue)| (m.0@, m.1@))
}

/// The compact JSON text (as bytes) of the object with these members.
pub uninterp spec fn json_object(members: Seq<(Seq<char>, JsonValueView)>) -> Seq<u8>;

/// The indented JSON text (as bytes) of the object with these members.
pub uninterp spec fn json_object_pretty(members: Seq<(Seq<char>, JsonValueView)>) -> Seq<u8>;

/// `serde_json::to_vec` of the `serde_json::Value::Object` with these
/// members, each value turned into the matching `Value`. Writing such a
/// value cannot fail (its keys are strings); the bytes are a function of the
/// members alone, left to the name `json_object`.
#[verifier::external_body]
fn encode_json_object(members: &Vec<(String, JsonValue)>) -> (bytes: Vec<u8>)
    ensures
        bytes@ == json_object(members_view(members@)),
{
    let map: serde_json::Map<String, serde_json::Value> = members.iter().map(|(k, v)| (k.clone(), match v {
        JsonValue::Bool(b) => serde_json::Value::Bool(*b),
        JsonValue::Text(t) => serde_json::Value::String(t.clone()),
        JsonValue::Number(n) => serde_json::Value::from(*n),
        JsonValue::TextList(l) => serde_json::Value::from(l.clone()),
    })).collect();
    serde_json::to_vec(&serde_json::Value::Object(map)).unwrap_or_default()
}

/// `serde_json::to_vec_pretty` of the `serde_json::Value::Object` with these
/// members, each value turned into the matching `Value`. Writing such a
/// value cannot fail; the bytes are a function of the members alone, left to
/// the name `json_object_pretty`.
#[verifier::external_body]
fn encode_json_object_pretty(members: &Vec<(String, JsonValue)>) -> (bytes: Vec<u8>)
    ensures
        bytes@ == json_object_pretty(members_view(members@)),
{
    let map: serde_json::Map<String, serde_json::Value> = members.iter().map(|(k, v)| (k.clone(), match v {
        JsonValue::Bool(b) => serde_json::Value::Bool(*b),
        JsonValue::Text(t) => serde_json::Value::String(t.clone()),
        JsonValue::Number(n) => serde_json::Value::from(*n),
        JsonValue::TextList(l) => serde_json::Value::from(l.clone()),
    })).collect();
    serde_json::to_vec_pretty(&serde_json::Value::Object(map)).unwrap_or_default()
}

/// The members of an acknowledgement: `ok`, and `error` when there is one.
pub open spec fn ack_members(a: Ack) -> Seq<(Seq<char>, JsonValueView)> {
    match a.error {
        None => seq![("ok"@, JsonValueView::Bool(a.ok))],
        Some(e) => seq![("ok"@, JsonValueView::Bool(a.ok)), ("error"@, JsonValueView::Text(e@))],
    }
}

/// The acknowledgement as written to the browser: its JSON object, framed
/// (the whole of `write_message`'s output).
pub fn encode_reply(order: ByteOrder, a: &Ack) -> (out: Vec<u8>)
    ensures
        out@ == frame(order, json_object(ack_members(*a))),
{
    let mut members: Vec<(String, JsonValue)> = Vec::new();
    members.push((String::from_str("ok"), JsonValue::Bool(a.ok)));
    match &a.error {
        Some(e) => {
            members.push((String::from_str("error"), JsonValue::Text(e.clone())));
        },
        None => {},
    }
    assert(members_view(members@) =~= ack_members(*a));
    let body = encode_json_object(&members);
    frame_message(order, body.as_slice())
}

/// How deleting the cache file went.
#[derive(Clone, Debug, PartialEq, Eq)]
pub enum Removal {
    Removed,
    NotFound,
    Failed,
}

pub open spec fn clear_failed_prefix() -> Seq<char> {
    "캐시 파일 삭제 실패: "@
}

pub open spec fn write_failed_prefix() -> Seq<char> {
    "캐시 파일 쓰기 실패: "@
}

/// The outcome of clearing the cache at `path`: a file that is not there is
/// already cleared; any other failure names the file.
pub fn clear_cache_outcome(path: &str, removal: Removal) -> (r: Result<(), String>)
    ensures
        removal is Failed ==> (r matches Err(e) && e@ == clear_failed_prefix() + path@),
        !(removal is Failed) ==> r is Ok,
{
    match removal {
        Removal::Removed => Ok(()),
        Removal::NotFound => Ok(()),
        Removal::Failed => Err(join_text("캐시 파일 삭제 실패: ", path)),
    }
}

/// The error when the cache file at `path` cannot be written.
pub fn write_cache_failure(path: &str) -> (e: String)
    ensures
        e@ == write_failed_prefix() + path@,
{
    join_text("캐시 파일 쓰기 실패: ", path)
}

/// The credential cache file: the path given in `INNO_CREED_EXTENSION_CACHE`
/// when that is set, otherwise the default location (when there is one).
pub fn extension_cache_path(override_path: Option<String>, default_path: Option<String>) -> (r: Option<String>)
    ensures
        r.deep_view() == match override_path {
            Some(p) => Some(p@),
            None => default_path.deep_view(),
        },
{
    match override_path {
        Some(p) => Some(p),
        None => default_path,
    }
}

/// The content of the cache file.
#[derive(Clone, Debug, PartialEq, Eq)]
pub struct CacheEntry {
    pub auth_token: String,
    pub sign_key: String,
    pub captured_at_ms: u128,
}

/// The members of the cache file.
pub open spec fn cache_members(c: CacheEntry) -> Seq<(Seq<char>, JsonValueView)> {
    seq![
        ("authToken"@, JsonValueView::Text(c.auth_token@)),
        ("signKey"@, JsonValueView::Text(c.sign_key@)),
        ("capturedAtMs"@, JsonValueView::Number(c.captured_at_ms as u64)),
    ]
}

/// The content of the cache file: its members as indented JSON. A stamp
/// beyond `u64::MAX` milliseconds has no JSON number here.
pub fn encode_cache_entry(c: &CacheEntry) -> (out: Vec<u8>)
    requires
        c.captured_at_ms <= u64::MAX,
    ensures
        out@ == json_object_pretty(cache_members(*c)),
{
    let members: Vec<(String, JsonValue)> = vec![
        (String::from_str("authToken"), JsonValue::Text(c.auth_token.clone())),
        (String::from_str("signKey"), JsonValue::Text(c.sign_key.clone())),
        (String::from_str("capturedAtMs"), JsonValue::Number(c.captured_at_ms as u64)),
    ];
    assert(members_view(members@) =~= cache_members(*c));
    encode_json_object_pretty(&members)
}

/// The cache entry for two credentials, stamped with the milliseconds since
/// the Unix epoch, or 0 when the clock is before the epoch.
pub fn cache_entry(auth_token: String, sign_key: String, since_epoch_ms: Option<u128>) -> (c: CacheEntry)
    ensures
        c.auth_token == auth_token,
        c.sign_key == sign_key,
        c.captured_at_ms == match since_epoch_ms {
            Some(ms) => ms,
            None => 0,
        },
{
    let captured_at_ms = match since_epoch_ms {
        Some(ms) => ms,
        None => 0,
    };
    CacheEntry { auth_token, sign_key, captured_at_ms }
}

/// The name under which the host is registered with the browsers.
pub open spec fn host_name() -> Seq<char> {
    "com.innogrid.inno_creed"@
}

/// The file name of the host manifest: the host name with `.json`.
pub open spec fn manifest_file_name() -> Seq<char> {
    host_name() + ".json"@
}

/// The folder of the host manifest under `LOCALAPPDATA`.
pub open spec fn manifest_folder(local_app_data: Seq<char>) -> Seq<char> {
    local_app_data + "\\inno-creed"@
}

/// Where the host manifest lives: on Windows, the manifest file in the
/// `inno-creed` folder of `LOCALAPPDATA` (when that is set); elsewhere there
/// is no registration, hence no manifest. The registration and the check of
/// it share this one path.
pub fn manifest_path(platform: Platform, local_app_data: Option<String>) -> (r: Option<String>)
    ensures
        platform == Platform::Other ==> r is None,
        platform == Platform::Windows ==> match local_app_data {
            None => r is None,
            Some(l) => r matches Some(p) && joined(p@, manifest_folder(l@), manifest_file_name()),
        },
{
    match platform {
        Platform::Other => None,
        Platform::Windows => match local_app_data {
            None => None,
            Some(l) => {
                let folder = join_text(l.as_str(), "\\inno-creed");
                let file = join_text("com.innogrid.inno_creed", ".json");
                Some(path_join(folder.as_str(), file.as_str()))
            },
        },
    }
}

/// The registration of the host with one browser: the registry key under
/// the browser's hive, the `reg` arguments that point it at the manifest, and
/// the errors reported when `reg` fails or cannot start.
#[derive(Clone, Debug, PartialEq, Eq)]
pub struct Registration {
    pub browser: String,
    pub key: String,
    pub args: Vec<String>,
    pub failure_message: String,
    pub spawn_failure_message: String,
}

impl Registration {
    /// This registration is the one for `browser` with its hive `hive`,
    /// pointing at `manifest_path`.
    pub open spec fn is_for(&self, browser: Seq<char>, hive: Seq<char>, manifest_path: Seq<char>) -> bool {
        &&& self.browser@ == browser
        &&& self.key@ == "HKCU\\"@ + hive + "\\"@ + host_name()
        &&& self.args.deep_view() == seq!["add"@, self.key@, "/ve"@, "/d"@, manifest_path, "/f"@]
        &&& self.failure_message@ == browser + " 레지스트리 등록 실패: "@ + self.key@
        &&& self.spawn_failure_message@ == "reg.exe 실행 실패("@ + browser + ")"@
    }
}

/// The host manifest: the host's name, a description, the program to start,
/// the stdio transport, and the one extension allowed to talk to it.
#[derive(Clone, Debug, PartialEq, Eq)]
pub struct HostManifest {
    pub name: String,
    pub description: String,
    pub path: String,
    pub transport: String,
    pub allowed_origins: Vec<String>,
}

/// Everything that registering the host writes.
#[derive(Clone, Debug, PartialEq, Eq)]
pub struct HostInstallPlan {
    pub manifest_dir: String,
    pub manifest_path: String,
    pub manifest: HostManifest,
    pub registrations: Vec<Registration>,
}

pub open spec fn chrome_hive() -> Seq<char> {
    "Software\\Google\\Chrome\\NativeMessagingHosts"@
}

pub open spec fn edge_hive() -> Seq<char> {
    "Software\\Microsoft\\Edge\\NativeMessagingHosts"@
}

/// The origin of the extension with id `extension_id`.
pub open spec fn extension_origin(extension_id: Seq<char>) -> Seq<char> {
    "chrome-extension://"@ + extension_id + "/"@
}

/// The plan is the registration of `exe` for `extension_id` with its
/// manifest in `LOCALAPPDATA` `local`.
pub open spec fn is_install_plan(
    p: HostInstallPlan,
    extension_id: Seq<char>,
    exe: Seq<char>,
    local: Seq<char>,
) -> bool {
    &&& p.manifest_dir@ == manifest_folder(local)
    &&& joined(p.manifest_path@, manifest_folder(local), manifest_file_name())
    &&& p.manifest.name@ == host_name()
    &&& p.manifest.description@ == "inno-creed 크레덴셜 브릿지 native messaging host"@
    &&& p.manifest.path@ == exe
    &&& p.manifest.transport@ == "stdio"@
    &&& p.manifest.allowed_origins.deep_view() == seq![extension_origin(extension_id)]
    &&& p.registrations@.len() == 2
    &&& p.registrations@[0].is_for("Chrome"@, chrome_hive(), p.manifest_path@)
    &&& p.registrations@[1].is_for("Edge"@, edge_hive(), p.manifest_path@)
}

pub open spec fn unsupported_platform_message() -> Seq<char> {
    "익스텐션 native host 등록은 현재 Windows만 지원합니다"@
}

fn registration(browser: &str, hive: &str, manifest_path: &String) -> (r: Registration)
    ensures
        r.is_for(browser@, hive@, manifest_path@),
{
    let key = join_text(join_text(join_text("HKCU\\", hive).as_str(), "\\").as_str(), "com.innogrid.inno_creed");
    let args = vec![
        String::from_str("add"),
        key.clone(),
        String::from_str("/ve"),
        String::from_str("/d"),
        manifest_path.clone(),
        String::from_str("/f"),
    ];
    assert(args.deep_view() =~= seq!["add"@, key@, "/ve"@, "/d"@, manifest_path@, "/f"@]);
    let failure_message = join_text(join_text(browser, " 레지스트리 등록 실패: ").as_str(), key.as_str());
    let spawn_failure_message = join_text(join_text("reg.exe 실행 실패(", browser).as_str(), ")");
    Registration {
        browser: String::from_str(browser),
        key,
        args,
        failure_message,
        spawn_failure_message,
    }
}

/// Registering the host for `extension_id` (the decisions of
/// `--install-extension-host`): only on Windows; the program's own path and
/// `LOCALAPPDATA` must be known, in that order; then the manifest for the
/// program and the Chrome and Edge registry entries that point to it.
pub fn install(
    platform: Platform,
    extension_id: &str,
    exe_path: Option<String>,
    local_app_data: Option<String>,
) -> (r: Result<HostInstallPlan, String>)
    ensures
        platform == Platform::Other ==> (r matches Err(e) && e@ == unsupported_platform_message()),
        platform == Platform::Windows ==> match (exe_path, local_app_data) {
            (None, _) => r matches Err(e) && e@ == "실행파일 경로 취득 실패"@,
            (Some(_), None) => r matches Err(e) && e@ == "LOCALAPPDATA 없음"@,
            (Some(exe), Some(local)) => r matches Ok(p) && is_install_plan(
                p,
                extension_id@,
                exe@,
                local@,
            ),
        },
{
    if platform == Platform::Other {
        return Err(String::from_str("익스텐션 native host 등록은 현재 Windows만 지원합니다"));
    }
    let exe = match exe_path {
        None => {
            return Err(String::from_str("실행파일 경로 취득 실패"));
        },
        Some(e) => e,
    };
    let local = match &local_app_data {
        None => {
            return Err(String::from_str("LOCALAPPDATA 없음"));
        },
        Some(l) => l.clone(),
    };
    let manifest_path = match manifest_path(platform, local_app_data) {
        Some(p) => p,
        None => {
            return Err(String::from_str("LOCALAPPDATA 없음"));
        },
    };
    let manifest_dir = join_text(local.as_str(), "\\inno-creed");
    let origin = join_text(join_text("chrome-extension://", extension_id).as_str(), "/");
    let allowed_origins = vec![origin];
    assert(allowed_origins.deep_view() =~= seq![extension_origin(extension_id@)]);
    let manifest = HostManifest {
        name: String::from_str("com.innogrid.inno_creed"),
        description: String::from_str("inno-creed 크레덴셜 브릿지 native messaging host"),
        path: exe,
        transport: String::from_str("stdio"),
        allowed_origins,
    };
    let chrome = registration(
        "Chrome",
        "Software\\Google\\Chrome\\NativeMessagingHosts",
        &manifest_path,
    );
    let edge = registration("Edge", "Software\\Microsoft\\Edge\\NativeMessagingHosts", &manifest_path);
    let registrations = vec![chrome, edge];
    Ok(HostInstallPlan { manifest_dir, manifest_path, manifest, registrations })
}

/// Each registration of a registering plan writes its own browser's key,
/// `HKCU\<hive>\com.innogrid.inno_creed`, as the key that `reg add` gets:
/// the first for Chrome under Google's hive, the second for Edge under
/// Microsoft's; so the two keys differ.
pub proof fn lemma_each_browser_gets_its_key(
    p: HostInstallPlan,
    extension_id: Seq<char>,
    exe: Seq<char>,
    local: Seq<char>,
)
    requires
        is_install_plan(p, extension_id, exe, local),
    ensures
        p.registrations@.len() == 2,
        p.registrations@[0].key@ == "HKCU\\Software\\Google\\Chrome\\NativeMessagingHosts\\com.innogrid.inno_creed"@,
        p.registrations@[1].key@ == "HKCU\\Software\\Microsoft\\Edge\\NativeMessagingHosts\\com.innogrid.inno_creed"@,
        forall|k: int| 0 <= k < 2 ==> (#[trigger] p.registrations@[k]).args.deep_view().len() == 6
            && p.registrations@[k].args.deep_view()[0] == "add"@
            && p.registrations@[k].args.deep_view()[1] == p.registrations@[k].key@,
        p.registrations@[0].args.deep_view()[1] != p.registrations@[1].args.deep_view()[1],
{
    reveal_strlit("HKCU\\");
    reveal_strlit("\\");
    reveal_strlit("Software\\Google\\Chrome\\NativeMessagingHosts");
    reveal_strlit("Software\\Microsoft\\Edge\\NativeMessagingHosts");
    reveal_strlit("com.innogrid.inno_creed");
    reveal_strlit("HKCU\\Software\\Google\\Chrome\\NativeMessagingHosts\\com.innogrid.inno_creed");
    reveal_strlit("HKCU\\Software\\Microsoft\\Edge\\NativeMessagingHosts\\com.innogrid.inno_creed");
    let c = p.registrations@[0];
    let e = p.registrations@[1];
    assert(c.key@ =~= "HKCU\\Software\\Google\\Chrome\\NativeMessagingHosts\\com.innogrid.inno_creed"@);
    assert(e.key@ =~= "HKCU\\Software\\Microsoft\\Edge\\NativeMessagingHosts\\com.innogrid.inno_creed"@);
    assert(c.args.deep_view()[1] == c.key@);
    assert(e.args.deep_view()[1] == e.key@);
    assert(c.key@[14] != e.key@[14]);
}

/// Registering writes the manifest at the path that `manifest_path` describes
/// for the same `LOCALAPPDATA`, and both browsers' registry entries point at
/// that very file.
pub proof fn lemma_registrations_point_at_manifest(
    p: HostInstallPlan,
    extension_id: Seq<char>,
    exe: Seq<char>,
    local: Seq<char>,
)
    requires
        is_install_plan(p, extension_id, exe, local),
    ensures
        joined(p.manifest_path@, manifest_folder(local), manifest_file_name()),
        forall|k: int| 0 <= k < p.registrations@.len() ==> (#[trigger] p.registrations@[k]).args.deep_view()[4]
            == p.manifest_path@,
{
    assert forall|k: int| 0 <= k < p.registrations@.len() implies (#[trigger] p.registrations@[k]).args.deep_view()[4]
        == p.manifest_path@ by {
        let r = p.registrations@[k];
        assert(r.args.deep_view()[4] == seq!["add"@, r.key@, "/ve"@, "/d"@, p.manifest_path@, "/f"@][4]);
    }
}

/// The members of the host manifest file.
pub open spec fn manifest_members(m: HostManifest) -> Seq<(Seq<char>, JsonValueView)> {
    seq![
        ("name"@, JsonValueView::Text(m.name@)),
        ("description"@, JsonValueView::Text(m.description@)),
        ("path"@, JsonValueView::Text(m.path@)),
        ("type"@, JsonValueView::Text(m.transport@)),
        ("allowed_origins"@, JsonValueView::TextList(m.allowed_origins.deep_view())),
    ]
}

/// The content of the host manifest file: its members as indented JSON.
pub fn encode_manifest(m: &HostManifest) -> (out: Vec<u8>)
    ensures
        out@ == json_object_pretty(manifest_members(*m)),
{
    let members: Vec<(String, JsonValue)> = vec![
        (String::from_str("name"), JsonValue::Text(m.name.clone())),
        (String::from_str("description"), JsonValue::Text(m.description.clone())),
        (String::from_str("path"), JsonValue::Text(m.path.clone())),
        (String::from_str("type"), JsonValue::Text(m.transport.clone())),
        (String::from_str("allowed_origins"), JsonValue::TextList(m.allowed_origins.clone())),
    ];
    assert(members_view(members@) =~= manifest_members(*m));
    encode_json_object_pretty(&members)
}

/// The extension id fixed by the extension's manifest key.
pub open spec fn default_extension_id() -> Seq<char> {
    "hpabcmnjaahhdenpdmfjlmkfjljdldbf"@
}

/// The extension id fixed by the extension's manifest key, used when
/// `--install-extension-host` is given none.
pub fn default_extension_id_text() -> (id: &'static str)
    ensures
        id@ == default_extension_id(),
{
    "hpabcmnjaahhdenpdmfjlmkfjljdldbf"
}

/// How the `inno-creed` program was asked to run.
#[derive(Clone, Debug, PartialEq, Eq)]
pub enum HostMode {
    /// Print the version and exit.
    Version,
    /// Answer one native message from the browser.
    NativeHost,
    /// Register the native messaging host for this extension id.
    InstallExtensionHost(String),
    /// Serve MCP over stdio.
    Serve,
}

pub enum HostModeView {
    Version,
    NativeHost,
    InstallExtensionHost(Seq<char>),
    Serve,
}

impl View for HostMode {
    type V = HostModeView;

    open spec fn view(&self) -> HostModeView {
        match self {
            HostMode::Version => HostModeView::Version,
            HostMode::NativeHost => HostModeView::NativeHost,
            HostMode::InstallExtensionHost(id) => HostModeView::InstallExtensionHost(id@),
            HostMode::Serve => HostModeView::Serve,
        }
    }
}

pub open spec fn is_version_flag(a: Seq<char>) -> bool {
    a == "--version"@ || a == "-V"@
}

/// An argument that the browser passes when it starts the host (the
/// extension's origin), or the flag for starting it by hand.
pub open spec fn is_native_host_arg(a: Seq<char>) -> bool {
    ||| a == "--native-host"@
    ||| "chrome-extension://"@.is_prefix_of(a)
    ||| "moz-extension://"@.is_prefix_of(a)
}

pub open spec fn install_host_flag() -> Seq<char> {
    "--install-extension-host"@
}

/// The mode for the arguments `args` (without the program name): a version
/// flag anywhere wins, then a native-host argument anywhere, then
/// `--install-extension-host` with the argument after its first occurrence
/// as the extension id (the default id when it is last); otherwise serving.
pub open spec fn host_mode_of(args: Seq<Seq<char>>) -> HostModeView {
    if exists|i: int| 0 <= i < args.len() && #[trigger] is_version_flag(args[i]) {
        HostModeView::Version
    } else if exists|i: int| 0 <= i < args.len() && #[trigger] is_native_host_arg(args[i]) {
        HostModeView::NativeHost
    } else if exists|i: int| 0 <= i < args.len() && #[trigger] args[i] == install_host_flag() {
        let p = choose|p: int| is_first_index(args, install_host_flag(), p);
        HostModeView::InstallExtensionHost(
            if p + 1 < args.len() {
                args[p + 1]
            } else {
                default_extension_id()
            },
        )
    } else {
        HostModeView::Serve
    }
}

fn any_version_flag(args: &Vec<String>) -> (r: bool)
    ensures
        r == exists|i: int| 0 <= i < args@.len() && #[trigger] is_version_flag(args.deep_view()[i]),
{
    let ghost a = args.deep_view();
    let mut i: usize = 0;
    while i < args.len()
        invariant
            a == args.deep_view(),
            i <= a.len(),
            forall|j: int| 0 <= j < i ==> !is_version_flag(#[trigger] a[j]),
        decreases a.len() - i,
    {
        let arg = args[i].as_str();
        if text_eq(arg, "--version") || text_eq(arg, "-V") {
            assert(is_version_flag(a[i as int]));
            return true;
        }
        i = i + 1;
    }
    false
}

fn any_native_host_arg(args: &Vec<String>) -> (r: bool)
    ensures
        r == exists|i: int| 0 <= i < args@.len() && #[trigger] is_native_host_arg(args.deep_view()[i]),
{
    let ghost a = args.deep_view();
    let mut i: usize = 0;
    while i < args.len()
        invariant
            a == args.deep_view(),
            i <= a.len(),
            forall|j: int| 0 <= j < i ==> !is_native_host_arg(#[trigger] a[j]),
        decreases a.len() - i,
    {
        let arg = args[i].as_str();
        if text_eq(arg, "--native-host") || has_prefix(arg, "chrome-extension://") || has_prefix(
            arg,
            "moz-extension://",
        ) {
            assert(is_native_host_arg(a[i as int]));
            return true;
        }
        i = i + 1;
    }
    false
}

/// With neither a version flag nor a native-host argument anywhere, the first
/// `--install-extension-host` asks to register the host for the extension id
/// that follows it, or for the extension's own id when nothing follows.
pub proof fn lemma_install_host_takes_next_argument(args: Seq<Seq<char>>, p: int)
    requires
        0 <= p < args.len(),
        args[p] == "--install-extension-host"@,
        forall|j: int| 0 <= j < p ==> args[j] != "--install-extension-host"@,
        forall|j: int|
            0 <= j < args.len() ==> args[j] != "--version"@ && args[j] != "-V"@ && args[j] != "--native-host"@
                && !"chrome-extension://"@.is_prefix_of(args[j]) && !"moz-extension://"@.is_prefix_of(args[j]),
    ensures
        host_mode_of(args) == HostModeView::InstallExtensionHost(
            if p + 1 < args.len() {
                args[p + 1]
            } else {
                "hpabcmnjaahhdenpdmfjlmkfjljdldbf"@
            },
        ),
{
    assert(is_first_index(args, install_host_flag(), p));
    let q = choose|q: int| is_first_index(args, install_host_flag(), q);
    if q < p {
        assert(args[q] != install_host_flag());
    }
    if p < q {
        assert(args[p] != install_host_flag());
    }
    assert(q == p);
}

/// The mode is chosen by what the arguments hold, wherever it stands: a
/// `--version` or `-V` anywhere gives the version; else an argument anywhere
/// that is `--native-host` or starts with `chrome-extension://` or
/// `moz-extension://` (the browser adds others, such as
/// `--parent-window=0`, after it) makes the program the native host.
pub proof fn lemma_mode_from_any_argument(args: Seq<Seq<char>>, i: int)
    requires
        0 <= i < args.len(),
    ensures
        (args[i] == "--version"@ || args[i] == "-V"@) ==> host_mode_of(args) == HostModeView::Version,
        (forall|j: int| 0 <= j < args.len() ==> args[j] != "--version"@ && args[j] != "-V"@)
            && (args[i] == "--native-host"@ || "chrome-extension://"@.is_prefix_of(args[i])
            || "moz-extension://"@.is_prefix_of(args[i])) ==> host_mode_of(args) == HostModeView::NativeHost,
{
    assert(is_version_flag(args[i]) == (args[i] == "--version"@ || args[i] == "-V"@));
    assert(is_native_host_arg(args[i]) == (args[i] == "--native-host"@ || "chrome-extension://"@.is_prefix_of(args[i])
        || "moz-extension://"@.is_prefix_of(args[i])));
}

/// The mode of the `inno-creed` program for its arguments (without the
/// program name).
pub fn host_mode(args: &Vec<String>) -> (m: HostMode)
    ensures
        m@ == host_mode_of(args.deep_view()),
{
    let ghost a = args.deep_view();
    if any_version_flag(args) {
        return HostMode::Version;
    }
    if any_native_host_arg(args) {
        return HostMode::NativeHost;
    }
    match position_of(args, "--install-extension-host") {
        Some(p) => {
            proof {
                assert(is_first_index(a, install_host_flag(), p as int));
                let q = choose|q: int| is_first_index(a, install_host_flag(), q);
                assert(is_first_index(a, install_host_flag(), q));
                if q < p {
                    assert(a[q] != install_host_flag());
                } else if p < q {
                    assert(a[p as int] != install_host_flag());
                }
                assert(q == p);
            }
            let id = if p < args.len() - 1 {
                args[p + 1].clone()
            } else {
                String::from_str(default_extension_id_text())
            };
            HostMode::InstallExtensionHost(id)
        },
        None => HostMode::Serve,
    }
}

} // verus!
