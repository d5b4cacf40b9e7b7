//! The wire format of a log event: a UTF-8 JSON object with exactly the
//! string fields `timestamp`, `app`, `host`, `filename` and `log`. Fields
//! beyond those five are rejected. A key given twice counts once, with its
//! last value. Objects are written with their keys in sorted order. JSON
//! itself is read and written by serde_json; this module frames and checks
//! what it reads and writes.
use vstd::prelude::*;
use vstd::utf8::{decode_utf8, valid_utf8};
use crate::text::same_text;
use std::collections::BTreeMap;
use crate::event::{Log, LogView};
use crate::MAX_DATAGRAM_LEN;

verus! {

/// Why a datagram is not accepted as a log event.
#[derive(Clone, Copy, Debug, PartialEq, Eq, Structural)]
pub enum DecodeError {
    /// The payload is longer than `MAX_DATAGRAM_LEN` bytes.
    TooLong,
    /// The payload is not valid UTF-8.
    NotUtf8,
    /// The text is not a JSON object whose values are all strings.
    NotStringObject,
    /// The object's keys are not exactly the five field names.
    FieldMismatch,
}

/// The object that serde_json reads from `text`, when `text` is a JSON
/// object whose values are all strings; `None` for any other text.
pub uninterp spec fn json_string_object(text: Seq<char>) -> Option<Map<Seq<char>, Seq<char>>>;

/// The compact JSON text that serde_json writes for an object of strings.
pub uninterp spec fn json_object_text(m: Map<Seq<char>, Seq<char>>) -> Seq<char>;

/// The object that a list of key/value pairs describes.
pub open spec fn entries_map(s: Seq<(String, String)>) -> Map<Seq<char>, Seq<char>>
    decreases s.len(),
{
    if s.len() == 0 {
        Map::empty()
    } else {
        entries_map(s.drop_last()).insert(s.last().0@, s.last().1@)
    }
}

/// No key occurs twice among the pairs.
pub open spec fn distinct_keys(s: Seq<(String, String)>) -> bool {
    forall|i: int, j: int| 0 <= i < j < s.len() ==> s[i].0@ != s[j].0@
}

/// Relies on `serde_json::from_str` into a `BTreeMap<String, String>`: it
/// succeeds exactly on the texts that hold a JSON object of strings, and the
/// map's entries are that object, each key once.
#[verifier::external_body]
fn parse_string_object(text: &str) -> (r: Option<Vec<(String, String)>>)
    ensures
        match r {
            Some(v) => json_string_object(text@) == Some(entries_map(v@)) && distinct_keys(v@),
            None => json_string_object(text@) is None,
        },
{
    match serde_json::from_str::<BTreeMap<String, String>>(text) {
        Ok(m) => Some(m.into_iter().collect()),
        Err(_) => None,
    }
}

/// Relies on `serde_json::to_string` on a `BTreeMap<&str, &str>`: it cannot
/// fail on a map whose keys and values are strings, the text it writes
/// depends on the map alone, and `serde_json::from_str` reads the same map
/// back from it.
#[verifier::external_body]
fn write_string_object(entries: &Vec<(String, String)>) -> (r: String)
    requires
        distinct_keys(entries@),
    ensures
        r@ == json_object_text(entries_map(entries@)),
        json_string_object(r@) == Some(entries_map(entries@)),
{
    let m: BTreeMap<&str, &str> = entries.iter().map(|(k, v)| (k.as_str(), v.as_str())).collect();
    serde_json::to_string(&m).expect("a map of strings is always written")
}

/// Relies on `std::str::from_utf8`: it succeeds exactly on valid UTF-8, and
/// the text is the characters that the bytes encode.
#[verifier::external_body]
fn utf8_text(bytes: &[u8]) -> (r: Option<&str>)
    ensures
        match r {
            Some(t) => valid_utf8(bytes@) && t@ == decode_utf8(bytes@),
            None => !valid_utf8(bytes@),
        },
{
    std::str::from_utf8(bytes).ok()
}

/// The five field names of a log event.
pub open spec fn field_names() -> Set<Seq<char>> {
    set!["timestamp"@, "app"@, "host"@, "filename"@, "log"@]
}

/// The event that an object describes: one whose keys are exactly the five
/// field names.
pub open spec fn object_event(m: Map<Seq<char>, Seq<char>>) -> Option<LogView> {
    if m.dom() == field_names() {
        Some(
            LogView {
                timestamp: m["timestamp"@],
                app: m["app"@],
                host: m["host"@],
                filename: m["filename"@],
                log: m["log"@],
            },
        )
    } else {
        None
    }
}

/// The object that encodes an event: each field under its name.
pub open spec fn event_object(e: LogView) -> Map<Seq<char>, Seq<char>> {
    map![
        "timestamp"@ => e.timestamp,
        "app"@ => e.app,
        "host"@ => e.host,
        "filename"@ => e.filename,
        "log"@ => e.log,
    ]
}

/// The outcome of decoding an object given as key/value pairs.
pub open spec fn decode_object(m: Map<Seq<char>, Seq<char>>) -> Result<LogView, DecodeError> {
    match object_event(m) {
        Some(e) => Ok(e),
        None => Err(DecodeError::FieldMismatch),
    }
}

/// The outcome of decoding a text as a log event.
pub open spec fn decode_text_spec(text: Seq<char>) -> Result<LogView, DecodeError> {
    match json_string_object(text) {
        Some(m) => decode_object(m),
        None => Err(DecodeError::NotStringObject),
    }
}

/// The outcome of decoding a datagram payload as a log event.
pub open spec fn decode_payload_spec(bytes: Seq<u8>) -> Result<LogView, DecodeError> {
    if bytes.len() > MAX_DATAGRAM_LEN {
        Err(DecodeError::TooLong)
    } else if !valid_utf8(bytes) {
        Err(DecodeError::NotUtf8)
    } else {
        decode_text_spec(decode_utf8(bytes))
    }
}

/// The mathematical value of a decoding outcome.
pub open spec fn outcome_view(r: Result<Log, DecodeError>) -> Result<LogView, DecodeError> {
    match r {
        Ok(e) => Ok(e@),
        Err(d) => Err(d),
    }
}

proof fn lemma_entries_map_dom(s: Seq<(String, String)>, k: Seq<char>)
    ensures
        entries_map(s).dom().contains(k) <==> exists|i: int| 0 <= i < s.len() && s[i].0@ == k,
    decreases s.len(),
{
    if s.len() > 0 {
        let t = s.drop_last();
        lemma_entries_map_dom(t, k);
        if entries_map(t).dom().contains(k) {
            let i = choose|i: int| 0 <= i < t.len() && t[i].0@ == k;
            assert(s[i] == t[i]);
        }
        if exists|i: int| 0 <= i < s.len() && s[i].0@ == k {
            let i = choose|i: int| 0 <= i < s.len() && s[i].0@ == k;
            if i < s.len() - 1 {
                assert(t[i] == s[i]);
            }
        }
    }
}

proof fn lemma_entries_map_value(s: Seq<(String, String)>, i: int)
    requires
        distinct_keys(s),
        0 <= i < s.len(),
    ensures
        entries_map(s).dom().contains(s[i].0@),
        entries_map(s)[s[i].0@] == s[i].1@,
    decreases s.len(),
{
    let t = s.drop_last();
    if i < s.len() - 1 {
        assert(t[i] == s[i]);
        lemma_entries_map_value(t, i);
    }
}

/// Whether a key is one of the five field names.
fn is_field_name(key: &str) -> (r: bool)
    ensures
        r == field_names().contains(key@),
{
    same_text(key, "timestamp") || same_text(key, "app") || same_text(key, "host")
        || same_text(key, "filename") || same_text(key, "log")
}

/// The value stored under `key`, if any.
fn lookup<'a>(entries: &'a Vec<(String, String)>, key: &str) -> (r: Option<&'a String>)
    requires
        distinct_keys(entries@),
    ensures
        match r {
            Some(v) => entries_map(entries@).dom().contains(key@) && entries_map(entries@)[key@] == v@,
            None => !entries_map(entries@).dom().contains(key@),
        },
{
    let mut i: usize = 0;
    while i < entries.len()
        invariant
            distinct_keys(entries@),
            i <= entries@.len(),
            forall|j: int| 0 <= j < i ==> entries@[j].0@ != key@,
        decreases entries@.len() - i,
    {
        if same_text(entries[i].0.as_str(), key) {
            proof {
                lemma_entries_map_value(entries@, i as int);
            }
            return Some(&entries[i].1);
        }
        i = i + 1;
    }
    proof {
        lemma_entries_map_dom(entries@, key@);
    }
    None
}

/// Decodes an object, given as key/value pairs with distinct keys, as a log
/// event: the keys must be exactly the five field names.
pub fn decode_fields(entries: &Vec<(String, String)>) -> (r: Result<Log, DecodeError>)
    requires
        distinct_keys(entries@),
    ensures
        outcome_view(r) == decode_object(entries_map(entries@)),
{
    let ghost m = entries_map(entries@);
    let mut i: usize = 0;
    while i < entries.len()
        invariant
            distinct_keys(entries@),
            i <= entries@.len(),
            forall|j: int| 0 <= j < i ==> field_names().contains(#[trigger] entries@[j].0@),
        decreases entries@.len() - i,
    {
        if !is_field_name(entries[i].0.as_str()) {
            proof {
                lemma_entries_map_value(entries@, i as int);
            }
            return Err(DecodeError::FieldMismatch);
        }
        i = i + 1;
    }
    let timestamp = lookup(entries, "timestamp");
    let app = lookup(entries, "app");
    let host = lookup(entries, "host");
    let filename = lookup(entries, "filename");
    let log = lookup(entries, "log");
    match (timestamp, app, host, filename, log) {
        (Some(t), Some(a), Some(h), Some(f), Some(l)) => {
            proof {
                assert forall|k: Seq<char>| m.dom().contains(k) <==> field_names().contains(k) by {
                    lemma_entries_map_dom(entries@, k);
                }
                assert(m.dom() =~= field_names());
            }
            Ok(Log::new(t.clone(), a.clone(), h.clone(), f.clone(), l.clone()))
        },
        _ => Err(DecodeError::FieldMismatch),
    }
}

/// Decodes a text as a log event: a JSON object of strings whose keys are
/// exactly the five field names.
pub fn decode_text(text: &str) -> (r: Result<Log, DecodeError>)
    ensures
        outcome_view(r) == decode_text_spec(text@),
{
    match parse_string_object(text) {
        Some(entries) => decode_fields(&entries),
        None => Err(DecodeError::NotStringObject),
    }
}

/// Decodes a datagram payload as a log event. Payloads longer than
/// `MAX_DATAGRAM_LEN` bytes and payloads that are not UTF-8 are rejected.
pub fn decode_datagram(bytes: &[u8]) -> (r: Result<Log, DecodeError>)
    ensures
        outcome_view(r) == decode_payload_spec(bytes@),
{
    if bytes.len() > MAX_DATAGRAM_LEN {
        return Err(DecodeError::TooLong);
    }
    match utf8_text(bytes) {
        Some(text) => decode_text(text),
        None => Err(DecodeError::NotUtf8),
    }
}

/// The five field names begin with five different letters.
proof fn lemma_field_names_differ()
    ensures
        "timestamp"@[0] == 't',
        "app"@[0] == 'a',
        "host"@[0] == 'h',
        "filename"@[0] == 'f',
        "log"@[0] == 'l',
{
    reveal_strlit("timestamp");
    reveal_strlit("app");
    reveal_strlit("host");
    reveal_strlit("filename");
    reveal_strlit("log");
}

/// The object of an event decodes back to that event.
pub proof fn lemma_event_object_decodes(e: LogView)
    ensures
        decode_object(event_object(e)) == Ok::<LogView, DecodeError>(e),
{
    lemma_field_names_differ();
    assert(event_object(e).dom() =~= field_names());
}

/// The five fields of an event as key/value pairs, in column order.
pub fn log_fields(e: &Log) -> (r: Vec<(String, String)>)
    ensures
        distinct_keys(r@),
        entries_map(r@) == event_object(e@),
{
    let r = vec![
        (String::from_str("timestamp"), e.timestamp.clone()),
        (String::from_str("app"), e.app.clone()),
        (String::from_str("host"), e.host.clone()),
        (String::from_str("filename"), e.filename.clone()),
        (String::from_str("log"), e.log.clone()),
    ];
    proof {
        lemma_field_names_differ();
        reveal_with_fuel(entries_map, 6);
        assert(entries_map(r@) =~= event_object(e@));
    }
    r
}

/// Encodes an event in the wire format: a JSON object with the five fields.
/// What it writes decodes back to the same event.
pub fn encode_log(e: &Log) -> (r: String)
    ensures
        r@ == json_object_text(event_object(e@)),
        decode_text_spec(r@) == Ok::<LogView, DecodeError>(e@),
{
    let entries = log_fields(e);
    proof {
        lemma_event_object_decodes(e@);
    }
    write_string_object(&entries)
}

/// The texts, separated by commas.
pub open spec fn joined(items: Seq<Seq<char>>) -> Seq<char>
    decreases items.len(),
{
    if items.len() == 0 {
        Seq::empty()
    } else if items.len() == 1 {
        items[0]
    } else {
        joined(items.drop_last()) + ","@ + items.last()
    }
}

/// A JSON array whose elements are the given JSON texts.
pub open spec fn json_array_text(items: Seq<Seq<char>>) -> Seq<char> {
    "["@ + joined(items) + "]"@
}

/// The characters of each string.
pub open spec fn texts(v: Seq<String>) -> Seq<Seq<char>> {
    v.map_values(|s: String| s@)
}

/// Frames already encoded JSON values as one JSON array.
pub fn render_array(items: &Vec<String>) -> (r: String)
    ensures
        r@ == json_array_text(texts(items@)),
{
    let mut out = String::from_str("[");
    let mut i: usize = 0;
    while i < items.len()
        invariant
            i <= items@.len(),
            out@ == "["@ + joined(texts(items@).take(i as int)),
        decreases items@.len() - i,
    {
        if i > 0 {
            out.append(",");
        }
        out.append(items[i].as_str());
        proof {
            let t = texts(items@);
            assert(t.take(i + 1).drop_last() =~= t.take(i as int));
            if i == 0 {
                assert(joined(t.take(0)) =~= Seq::<char>::empty());
                assert(out@ =~= "["@ + joined(t.take(1)));
            } else {
                assert(out@ =~= "["@ + joined(t.take(i + 1)));
            }
        }
        i = i + 1;
    }
    out.append("]");
    assert(texts(items@).take(items@.len() as int) =~= texts(items@));
    out
}

/// The JSON array text of a sequence of events, in the same order.
pub open spec fn events_json(events: Seq<Log>) -> Seq<char> {
    json_array_text(events.map_values(|e: Log| json_object_text(event_object(e@))))
}

/// Renders events as a JSON array of their wire objects, in the same order.
/// Each object decodes back to its event.
pub fn render_logs(events: &Vec<Log>) -> (r: String)
    ensures
        r@ == events_json(events@),
        forall|i: int|
            0 <= i < events@.len() ==> decode_text_spec(
                #[trigger] json_object_text(event_object(events@[i]@)),
            ) == Ok::<LogView, DecodeError>(events@[i]@),
{
    let mut items: Vec<String> = Vec::new();
    let mut i: usize = 0;
    while i < events.len()
        invariant
            i <= events@.len(),
            items@.len() == i,
            forall|j: int| 0 <= j < i ==> #[trigger] items@[j]@ == json_object_text(event_object(events@[j]@)),
            forall|j: int|
                0 <= j < i ==> decode_text_spec(#[trigger] json_object_text(event_object(events@[j]@)))
                    == Ok::<LogView, DecodeError>(events@[j]@),
        decreases events@.len() - i,
    {
        items.push(encode_log(&events[i]));
        i = i + 1;
    }
    let out = render_array(&items);
    assert(texts(items@) =~= events@.map_values(|e: Log| json_object_text(event_object(e@))));
    out
}

} // verus!
