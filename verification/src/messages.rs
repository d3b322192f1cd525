//! The data-plane side of the client that is pure compute: entity path
//! construction (queues, topic/subscription pairs, dead-letter
//! sub-queues), decoding message bodies and entry fields, the peek
//! pagination state, and the planning of a send request.

use vstd::prelude::*;
use crate::error::SbError;
use crate::strutil::{all_digits, dec_val, parse_u64};
use crate::types::{MessageBody, ServiceBusMessage};
use crate::xmlfeed::{opt_str_is, strs_view, tag_inner_text, extract_tag_inner};

verus! {

// ---------------------------------------------------------------------------
// Entity paths
// ---------------------------------------------------------------------------

/// Path of a topic subscription: `topic/Subscriptions/name`.
pub open spec fn subscription_path_spec(topic: Seq<char>, sub: Seq<char>) -> Seq<char> {
    topic + "/Subscriptions/"@ + sub
}

/// Resolve the target of a message operation: a queue name, or a
/// topic/subscription pair. Naming neither is a validation error raised
/// before any network call.
pub fn entity_path(queue_name: Option<&str>, topic_name: Option<&str>, subscription_name: Option<
    &str>) -> (r: Result<String, SbError>)
    ensures
        queue_name matches Some(q) ==> (r matches Ok(p) && p@ == q@),
        queue_name is None ==> (topic_name matches Some(t) ==> (subscription_name matches Some(s)
            ==> (r matches Ok(p) && p@ == subscription_path_spec(t@, s@)))),
        (queue_name is None && (topic_name is None || subscription_name is None)) ==> (r matches
            Err(e) && e matches SbError::Validation(m) && m@
            == "Either queue_name or (topic_name and subscription_name) must be provided"@),
{
    match queue_name {
        Some(q) => Ok(q.to_owned()),
        None => match (topic_name, subscription_name) {
            (Some(t), Some(s)) => {
                let mut p = t.to_owned();
                p.append("/Subscriptions/");
                p.append(s);
                proof {
                    assert(p@ =~= subscription_path_spec(t@, s@));
                }
                Ok(p)
            }
            _ => Err(
                SbError::Validation(
                    String::from_str(
                        "Either queue_name or (topic_name and subscription_name) must be provided",
                    ),
                ),
            ),
        },
    }
}

/// Resolve the target of a send: the queue when one is named, else the
/// topic. Naming neither is a validation error raised before any
/// network call.
pub fn send_target_path(queue_name: Option<&str>, topic_name: Option<&str>) -> (r: Result<
    String,
    SbError,
>)
    ensures
        queue_name matches Some(q) ==> (r matches Ok(p) && p@ == q@),
        queue_name is None ==> (topic_name matches Some(t) ==> (r matches Ok(p) && p@ == t@)),
        (queue_name is None && topic_name is None) ==> (r matches Err(e) && e
            matches SbError::Validation(m) && m@
            == "Either queue_name or topic_name must be provided"@),
{
    match queue_name {
        Some(q) => Ok(q.to_owned()),
        None => match topic_name {
            Some(t) => Ok(t.to_owned()),
            None => Err(
                SbError::Validation(
                    String::from_str("Either queue_name or topic_name must be provided"),
                ),
            ),
        },
    }
}

/// The dead-letter sub-queue of an entity path.
pub fn dead_letter_path(path: &str) -> (r: String)
    ensures
        r@ == path@ + "/$deadletterqueue"@,
{
    let mut p = path.to_owned();
    p.append("/$deadletterqueue");
    p
}

// ---------------------------------------------------------------------------
// JSON probing (serde_json behind trusted wrappers)
// ---------------------------------------------------------------------------

/// Whether the text parses as one well-formed JSON document.
pub uninterp spec fn is_json_text(s: Seq<char>) -> bool;

/// Relies on serde_json::from_str::<Value>: whether the text is a
/// well-formed JSON document. A pure function of the text.
#[verifier::external_body]
fn json_is_valid(s: &str) -> (r: bool)
    ensures
        r == is_json_text(s@),
{
    serde_json::from_str::<serde_json::Value>(s).is_ok()
}

/// The named top-level string field of a JSON document, if the text
/// parses, has that field, and the field holds a string.
pub uninterp spec fn json_str_field(s: Seq<char>, key: Seq<char>) -> Option<Seq<char>>;

/// Relies on serde_json::from_str::<Value>, Value::get and Value::as_str:
/// the named top-level field when it holds a string. A pure function of
/// text and key.
#[verifier::external_body]
fn json_string_field(s: &str, key: &str) -> (r: Option<String>)
    ensures
        r.is_some() == json_str_field(s@, key@).is_some(),
        r matches Some(v) ==> json_str_field(s@, key@) == Some(v@),
{
    match serde_json::from_str::<serde_json::Value>(s) {
        Ok(doc) => match doc.get(key) {
            Some(f) => match f.as_str() {
                Some(x) => Some(x.to_string()),
                None => None,
            },
            None => None,
        },
        Err(_) => None,
    }
}

/// The named top-level integer field of a JSON document.
pub uninterp spec fn json_i64_field(s: Seq<char>, key: Seq<char>) -> Option<i64>;

/// Relies on serde_json::from_str::<Value>, Value::get and Value::as_i64:
/// the named top-level field when it holds an integer in `i64` range. A
/// pure function of text and key.
#[verifier::external_body]
fn json_int_field(s: &str, key: &str) -> (r: Option<i64>)
    ensures
        r == json_i64_field(s@, key@),
{
    match serde_json::from_str::<serde_json::Value>(s) {
        Ok(doc) => match doc.get(key) {
            Some(f) => f.as_i64(),
            None => None,
        },
        Err(_) => None,
    }
}

// ---------------------------------------------------------------------------
// Body decoding
// ---------------------------------------------------------------------------

/// What UTF-8 decoding yields for the bytes, when they are valid UTF-8.
pub uninterp spec fn utf8_decoded(b: Seq<u8>) -> Option<Seq<char>>;

/// Relies on String::from_utf8: the text the bytes encode, when they are
/// valid UTF-8. A pure function of the bytes.
#[verifier::external_body]
fn utf8_decode(b: &Vec<u8>) -> (r: Option<String>)
    ensures
        r.is_some() == utf8_decoded(b@).is_some(),
        r matches Some(t) ==> utf8_decoded(b@) == Some(t@),
{
    match String::from_utf8(b.clone()) {
        Ok(t) => Some(t),
        Err(_) => None,
    }
}

/// Spec of `decode_message_body`: JSON first, then UTF-8 text, with the
/// raw bytes kept when neither applies.
pub open spec fn decoded_body_is(b: Seq<u8>, body: MessageBody) -> bool {
    match utf8_decoded(b) {
        Some(t) => if is_json_text(t) {
            body matches MessageBody::Json(s) && s@ == t
        } else {
            body matches MessageBody::Text(s) && s@ == t
        },
        None => body matches MessageBody::Binary(v) && v@ == b,
    }
}

/// Decode raw body bytes: a JSON document when they parse as one, plain
/// text when they are UTF-8 but not JSON, the bytes themselves otherwise.
pub fn decode_message_body(bytes: Vec<u8>) -> (r: MessageBody)
    ensures
        decoded_body_is(bytes@, r),
{
    match utf8_decode(&bytes) {
        Some(t) => {
            if json_is_valid(t.as_str()) {
                MessageBody::Json(t)
            } else {
                MessageBody::Text(t)
            }
        }
        None => MessageBody::Binary(bytes),
    }
}

/// Spec of a body decoded from entry content text: JSON when it parses,
/// text otherwise, nothing when the entry had no content.
pub open spec fn content_body_is(content: Option<Seq<char>>, body: MessageBody) -> bool {
    match content {
        Some(c) => if is_json_text(c) {
            body matches MessageBody::Json(s) && s@ == c
        } else {
            body matches MessageBody::Text(s) && s@ == c
        },
        None => body matches MessageBody::Empty,
    }
}

// ---------------------------------------------------------------------------
// Message entries
// ---------------------------------------------------------------------------

/// The sequence number read out of an entry body: the `SequenceNumber`
/// element when it is all digits and fits, overridden by the
/// `SequenceNumber` field of the `BrokerProperties` JSON when present
/// and non-negative.
pub open spec fn entry_element_u64(body: Seq<char>, name: Seq<char>) -> Option<u64> {
    match tag_inner_text(body, name) {
        Some(v) => if v.len() > 0 && all_digits(v) && dec_val(v) <= u64::MAX {
            Some(dec_val(v) as u64)
        } else {
            None
        },
        None => None,
    }
}

/// An `Option<String>` field agreeing with an optional text, where a
/// later JSON override takes precedence over the entry's own element.
pub open spec fn overridden_str(
    base: Option<Seq<char>>,
    over: Option<Seq<char>>,
) -> Option<Seq<char>> {
    if over is Some {
        over
    } else {
        base
    }
}

fn entry_element(body: &str, name: &str) -> (r: Option<String>)
    ensures
        opt_str_is(r, tag_inner_text(body@, name@)),
{
    extract_tag_inner(body, name)
}

fn entry_element_number(body: &str, name: &str) -> (r: Option<u64>)
    ensures
        r == entry_element_u64(body@, name@),
{
    match extract_tag_inner(body, name) {
        Some(v) => parse_u64(v.as_str()),
        None => None,
    }
}

/// Field-by-field statement that `m` is the message read out of one
/// message-feed entry body.
pub open spec fn message_entry_match(m: ServiceBusMessage, body_xml: Seq<char>) -> bool {
    let broker = tag_inner_text(body_xml, "BrokerProperties"@);
    &&& content_body_is(tag_inner_text(body_xml, "content"@), m.body)
    &&& opt_str_is(
        m.message_id,
        overridden_str(
            tag_inner_text(body_xml, "MessageId"@),
            match broker {
                Some(bp) => json_str_field(bp, "MessageId"@),
                None => None,
            },
        ),
    )
    &&& opt_str_is(
        m.correlation_id,
        overridden_str(
            tag_inner_text(body_xml, "CorrelationId"@),
            match broker {
                Some(bp) => json_str_field(bp, "CorrelationId"@),
                None => None,
            },
        ),
    )
    &&& opt_str_is(m.content_type, tag_inner_text(body_xml, "ContentType"@))
    &&& m.sequence_number == ({
        let from_broker: Option<u64> = match broker {
            Some(bp) => match json_i64_field(bp, "SequenceNumber"@) {
                Some(x) => if x >= 0 {
                    Some(x as u64)
                } else {
                    None
                },
                None => None,
            },
            None => None,
        };
        if from_broker is Some {
            from_broker
        } else {
            entry_element_u64(body_xml, "SequenceNumber"@)
        }
    })
    &&& m.session_id is None && m.reply_to is None && m.reply_to_session_id is None && m.subject
        is None && m.time_to_live is None && m.to is None && m.application_properties is None
        && m.delivery_count is None && m.enqueued_time_utc is None && m.locked_until_utc is None
        && m.dead_letter_reason is None && m.dead_letter_error_description is None
}

/// Turn one message-feed entry into a message.
///
/// The body comes from the entry's `<content>`, tried as JSON first and
/// as text otherwise. Identity fields come from the entry's own
/// elements, overridden by the corresponding fields of the
/// `BrokerProperties` JSON blob when that is present, as the broker's
/// values are authoritative.
pub fn message_entry_to_message(body_xml: &str) -> (r: ServiceBusMessage)
    ensures
        message_entry_match(r, body_xml@),
{
    let body = match entry_element(body_xml, "content") {
        Some(c) => {
            if json_is_valid(c.as_str()) {
                MessageBody::Json(c)
            } else {
                MessageBody::Text(c)
            }
        }
        None => MessageBody::Empty,
    };
    let mut msg = ServiceBusMessage::with_body(body);
    msg.message_id = entry_element(body_xml, "MessageId");
    msg.correlation_id = entry_element(body_xml, "CorrelationId");
    msg.content_type = entry_element(body_xml, "ContentType");
    msg.sequence_number = entry_element_number(body_xml, "SequenceNumber");
    let broker = entry_element(body_xml, "BrokerProperties");
    match broker {
        Some(bp) => {
            match json_string_field(bp.as_str(), "MessageId") {
                Some(id) => {
                    msg.message_id = Some(id);
                }
                None => {}
            }
            match json_string_field(bp.as_str(), "CorrelationId") {
                Some(c) => {
                    msg.correlation_id = Some(c);
                }
                None => {}
            }
            match json_int_field(bp.as_str(), "SequenceNumber") {
                Some(x) => {
                    if x >= 0 {
                        msg.sequence_number = Some(x as u64);
                    }
                }
                None => {}
            }
        }
        None => {}
    }
    msg
}

// ---------------------------------------------------------------------------
// Peek pagination
// ---------------------------------------------------------------------------

/// The transport accepts at most this many messages per peek request.
pub const PEEK_MAX_PER_REQUEST: u32 = 32;

/// Iteration state of a peek that gathers up to `max_count` messages
/// page by page, cursoring on the last sequence number seen. `done`
/// holds as soon as the target is reached or a page came back empty or
/// short, since the protocol has no explicit end-of-messages signal.
pub struct PeekState {
    pub collected: u32,
    pub max_count: u32,
    pub from_sequence: Option<u64>,
    pub done: bool,
}

impl PeekState {
    /// The count never exceeds the target, and an unfinished peek still
    /// has room.
    pub open spec fn wf(&self) -> bool {
        self.collected <= self.max_count && (!self.done ==> self.collected < self.max_count)
    }

    pub fn new(max_count: u32) -> (r: PeekState)
        ensures
            r.wf(),
            r.collected == 0,
            r.max_count == max_count,
            r.from_sequence is None,
            r.done == (max_count == 0),
    {
        PeekState { collected: 0, max_count, from_sequence: None, done: max_count == 0 }
    }

    /// How many messages the next request asks for.
    pub fn next_request_count(&self) -> (r: u32)
        requires
            self.wf(),
            !self.done,
        ensures
            r == if self.max_count - self.collected < PEEK_MAX_PER_REQUEST {
                self.max_count - self.collected
            } else {
                PEEK_MAX_PER_REQUEST as int
            },
            0 < r <= PEEK_MAX_PER_REQUEST,
    {
        let remaining = self.max_count - self.collected;
        if remaining < PEEK_MAX_PER_REQUEST {
            remaining
        } else {
            PEEK_MAX_PER_REQUEST
        }
    }

    /// Account for one returned page: `entry_count` messages arrived
    /// after asking for `requested`; `page_last_seq` is the sequence
    /// number of the page's last message, which becomes the cursor.
    pub fn absorb(&mut self, entry_count: u32, requested: u32, page_last_seq: Option<u64>)
        requires
            old(self).wf(),
            !old(self).done,
        ensures
            final(self).wf(),
            final(self).max_count == old(self).max_count,
            final(self).collected == if old(self).collected + entry_count
                <= old(self).max_count {
                old(self).collected + entry_count
            } else {
                old(self).max_count as int
            },
            final(self).from_sequence == (if page_last_seq is Some {
                page_last_seq
            } else {
                old(self).from_sequence
            }),
            final(self).done == (entry_count == 0 || entry_count < requested
                || final(self).collected == final(self).max_count),
    {
        let room = self.max_count - self.collected;
        if entry_count >= room {
            self.collected = self.max_count;
        } else {
            self.collected = self.collected + entry_count;
        }
        match page_last_seq {
            Some(s) => {
                self.from_sequence = Some(s);
            }
            None => {}
        }
        self.done = entry_count == 0 || entry_count < requested || self.collected
            == self.max_count;
    }

    /// Absorb one returned page together with its messages: at most the
    /// remaining room is appended to `all`, in page order, so the
    /// gathered list can never outgrow `max_count` even if the server
    /// over-delivers; the cursor moves to the page's last sequence
    /// number. The messages keep the feed's order — sequence numbers
    /// ascend only as far as the server assigns them ascending.
    pub fn absorb_page(
        &mut self,
        page: Vec<ServiceBusMessage>,
        requested: u32,
        all: &mut Vec<ServiceBusMessage>,
    )
        requires
            old(self).wf(),
            !old(self).done,
        ensures
            final(self).wf(),
            final(self).max_count == old(self).max_count,
            final(all)@ == old(all)@ + page@.take(
                if page@.len() <= old(self).max_count - old(self).collected {
                    page@.len() as int
                } else {
                    old(self).max_count - old(self).collected
                },
            ),
            final(self).collected == old(self).collected + final(all)@.len() - old(all)@.len(),
            final(self).from_sequence == (if last_seq_of(page@) is Some {
                last_seq_of(page@)
            } else {
                old(self).from_sequence
            }),
            final(self).done == (page@.len() == 0 || page@.len() < requested as int
                || final(self).collected == final(self).max_count),
    {
        let page_len = page.len();
        let last = last_sequence_number(&page);
        let room: usize = (self.max_count - self.collected) as usize;
        let take_n = if page_len > room {
            room
        } else {
            page_len
        };
        let ghost page0 = page@;
        let ghost all0 = all@;
        let mut rest = page;
        let mut i: usize = 0;
        while i < take_n
            invariant
                i <= take_n,
                take_n <= page0.len(),
                rest@ == page0.skip(i as int),
                all@ == all0 + page0.take(i as int),
            decreases take_n - i,
        {
            let m = rest.remove(0);
            proof {
                assert(page0.skip(i as int)[0] == page0[i as int]);
                assert(page0.skip(i as int).subrange(1, page0.skip(i as int).len() as int)
                    =~= page0.skip(i + 1));
                assert((all0 + page0.take(i as int)).push(page0[i as int]) =~= all0 + page0.take(
                    i + 1,
                ));
            }
            all.push(m);
            i = i + 1;
        }
        self.collected = self.collected + (take_n as u32);
        match last {
            Some(s) => {
                self.from_sequence = Some(s);
            }
            None => {}
        }
        self.done = page_len == 0 || page_len < (requested as usize) || self.collected
            == self.max_count;
    }
}

/// The last server-assigned sequence number among the messages, looking
/// from the end of the page.
pub open spec fn last_seq_of(msgs: Seq<ServiceBusMessage>) -> Option<u64>
    decreases msgs.len(),
{
    if msgs.len() == 0 {
        None
    } else {
        match msgs.last().sequence_number {
            Some(s) => Some(s),
            None => last_seq_of(msgs.drop_last()),
        }
    }
}

fn last_sequence_number(msgs: &Vec<ServiceBusMessage>) -> (r: Option<u64>)
    ensures
        r == last_seq_of(msgs@),
{
    let mut i: usize = msgs.len();
    proof {
        assert(msgs@.take(msgs@.len() as int) =~= msgs@);
    }
    while i > 0
        invariant
            i <= msgs@.len(),
            last_seq_of(msgs@) == last_seq_of(msgs@.take(i as int)),
        decreases i,
    {
        proof {
            assert(msgs@.take(i as int).last() == msgs@[i - 1]);
            assert(msgs@.take(i as int).drop_last() =~= msgs@.take(i - 1));
        }
        match msgs[i - 1].sequence_number {
            Some(s) => {
                return Some(s);
            }
            None => {
                i = i - 1;
            }
        }
    }
    proof {
        assert(msgs@.take(0) =~= Seq::<ServiceBusMessage>::empty());
    }
    None
}

// ---------------------------------------------------------------------------
// Send planning
// ---------------------------------------------------------------------------

/// One `"key":"value"` member of a JSON object. Values are inserted
/// verbatim, as the wire protocol's own writer does for these fields.
pub open spec fn json_pair(key: Seq<char>, val: Seq<char>) -> Seq<char> {
    "\""@ + key + "\":\""@ + val + "\""@
}

/// One `"key":n` member with a numeric value.
pub open spec fn json_num_pair(key: Seq<char>, n: int) -> Seq<char> {
    "\""@ + key + "\":"@ + crate::strutil::dec_spec(n)
}

/// The members after the first, each with its leading comma.
pub open spec fn joined_tail(parts: Seq<Seq<char>>, i: int) -> Seq<char>
    decreases parts.len() - i,
{
    if i < 0 || i >= parts.len() {
        Seq::<char>::empty()
    } else {
        ","@ + parts[i] + joined_tail(parts, i + 1)
    }
}

/// The members joined with commas.
pub open spec fn joined(parts: Seq<Seq<char>>) -> Seq<char> {
    if parts.len() == 0 {
        Seq::<char>::empty()
    } else {
        parts[0] + joined_tail(parts, 1)
    }
}

/// The broker-property members an outbound message announces, in a
/// fixed order: every standard field present on the message, with the
/// subject under its wire name `Label`. Application properties are not
/// transmitted by this client.
pub open spec fn broker_pairs(m: ServiceBusMessage) -> Seq<Seq<char>> {
    opt_pair("MessageId"@, m.message_id) + opt_pair("CorrelationId"@, m.correlation_id)
        + opt_pair("SessionId"@, m.session_id) + opt_pair("Label"@, m.subject) + opt_pair(
        "ReplyTo"@,
        m.reply_to,
    ) + opt_pair("ReplyToSessionId"@, m.reply_to_session_id) + opt_pair("To"@, m.to) + (
    match m.time_to_live {
        Some(t) => seq![json_num_pair("TimeToLive"@, t as int)],
        None => Seq::<Seq<char>>::empty(),
    })
}

/// Zero or one string members for an optional field.
pub open spec fn opt_pair(key: Seq<char>, val: Option<String>) -> Seq<Seq<char>> {
    match val {
        Some(v) => seq![json_pair(key, v@)],
        None => Seq::<Seq<char>>::empty(),
    }
}

/// The `BrokerProperties` request header for an outbound message: a JSON
/// object of the present standard fields, or no header when none is set.
pub open spec fn broker_properties_header_spec(m: ServiceBusMessage) -> Option<Seq<char>> {
    if broker_pairs(m).len() == 0 {
        None
    } else {
        Some("{"@ + joined(broker_pairs(m)) + "}"@)
    }
}

fn push_str_pair(parts: &mut Vec<String>, key: &str, val: &Option<String>)
    ensures
        strs_view(final(parts)@) == strs_view(old(parts)@) + opt_pair(key@, *val),
{
    match val {
        Some(v) => {
            let mut p = String::from_str("\"");
            p.append(key);
            p.append("\":\"");
            p.append(v.as_str());
            p.append("\"");
            proof {
                assert(p@ =~= json_pair(key@, v@));
            }
            let ghost before = parts@;
            parts.push(p);
            proof {
                assert(strs_view(parts@) =~= strs_view(before) + opt_pair(key@, *val));
            }
        }
        None => {
            proof {
                assert(strs_view(parts@) =~= strs_view(old(parts)@) + opt_pair(key@, *val));
            }
        }
    }
}

/// Build the `BrokerProperties` header for an outbound message.
pub fn broker_properties_header(message: &ServiceBusMessage) -> (r: Option<String>)
    ensures
        opt_str_is(r, broker_properties_header_spec(*message)),
{
    let mut parts: Vec<String> = Vec::new();
    push_str_pair(&mut parts, "MessageId", &message.message_id);
    push_str_pair(&mut parts, "CorrelationId", &message.correlation_id);
    push_str_pair(&mut parts, "SessionId", &message.session_id);
    push_str_pair(&mut parts, "Label", &message.subject);
    push_str_pair(&mut parts, "ReplyTo", &message.reply_to);
    push_str_pair(&mut parts, "ReplyToSessionId", &message.reply_to_session_id);
    push_str_pair(&mut parts, "To", &message.to);
    match message.time_to_live {
        Some(t) => {
            let mut p = String::from_str("\"");
            p.append("TimeToLive");
            p.append("\":");
            let d = crate::strutil::dec_of_u64(t);
            p.append(d.as_str());
            proof {
                assert(p@ =~= json_num_pair("TimeToLive"@, t as int));
            }
            let ghost before = parts@;
            parts.push(p);
            proof {
                assert(strs_view(parts@) =~= strs_view(before) + seq![
                    json_num_pair("TimeToLive"@, t as int),
                ]);
            }
        }
        None => {}
    }
    proof {
        assert(strs_view(parts@) =~= broker_pairs(*message));
    }
    if parts.len() == 0 {
        return None;
    }
    let mut h = String::from_str("{");
    h.append(parts[0].as_str());
    let mut i: usize = 1;
    while i < parts.len()
        invariant
            1 <= i <= parts@.len(),
            parts@.len() > 0,
            strs_view(parts@) == broker_pairs(*message),
            h@ + joined_tail(strs_view(parts@), i as int) == "{"@ + joined(strs_view(parts@)),
        decreases parts@.len() - i,
    {
        h.append(",");
        h.append(parts[i].as_str());
        proof {
            assert(strs_view(parts@)[i as int] == parts@[i as int]@);
        }
        i = i + 1;
    }
    h.append("}");
    proof {
        assert(joined_tail(strs_view(parts@), i as int) =~= Seq::<char>::empty());
        assert(h@ =~= "{"@ + joined(broker_pairs(*message)) + "}"@);
    }
    Some(h)
}

/// The wire text of an outbound body: JSON documents and plain text go
/// as they are, an absent body goes as JSON `null`. Raw bytes have no
/// text form and are rejected before any network call.
pub fn body_wire_text(body: &MessageBody) -> (r: Result<String, SbError>)
    ensures
        body matches MessageBody::Json(s) ==> (r matches Ok(t) && t@ == s@),
        body matches MessageBody::Text(s) ==> (r matches Ok(t) && t@ == s@),
        body is Empty ==> (r matches Ok(t) && t@ == "null"@),
        body is Binary ==> (r matches Err(e) && e matches SbError::Validation(_)),
{
    match body {
        MessageBody::Json(s) => Ok(s.clone()),
        MessageBody::Text(s) => Ok(s.clone()),
        MessageBody::Empty => Ok(String::from_str("null")),
        MessageBody::Binary(_) => Err(
            SbError::Validation(String::from_str("A binary body cannot be sent as text")),
        ),
    }
}

} // verus!
