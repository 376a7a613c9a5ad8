//! The Quick lane over a realtime model connection: the conversation
//! history that is replayed on every reconnect, the turns that can be
//! retried, screenshots that are compacted after use, and the handling of
//! every server event.
use base64::Engine;
use vstd::prelude::*;

use crate::context::{extension_of, path_extension, ContextInfo};
use crate::credentials::{load_secret, secret_of, EnvCandidate};
use crate::text::{chars_of, eq_ignore_ascii_case, eq_ignore_case, is_prefix, owned, push_decimal, push_str, str_eq, trim, trim_str, decimal};
use crate::transcribe::{readiness_result, ReadyWait};

verus! {

/// The realtime model of the Quick lane.
pub const REALTIME_MODEL: &'static str = "gpt-realtime-2.1";

/// Output budget of a Quick answer, in tokens.
pub const MAX_OUTPUT_TOKENS: u32 = 700;

// ---------------------------------------------------------------------------
// Trusted items
// ---------------------------------------------------------------------------

/// `uuid::Uuid::new_v4().simple()` rendered with `to_string`: a random
/// UUID as 32 lower-case hexadecimal digits. Which digits is left open.
#[verifier::external_body]
fn uuid_simple() -> (s: String)
    ensures
        s@.len() == 32,
        forall|i: int| 0 <= i < 32 ==> is_lower_hex_digit(#[trigger] s@[i]),
{
    uuid::Uuid::new_v4().simple().to_string()
}

/// The standard Base64 encoding (with padding) of bytes.
pub uninterp spec fn base64_standard(data: Seq<u8>) -> Seq<char>;

/// `base64::engine::general_purpose::STANDARD.encode`: the standard Base64
/// encoding of `data`. Its value is named, not computed here.
#[verifier::external_body]
fn base64_encode(data: &[u8]) -> (s: String)
    ensures
        s@ == base64_standard(data@),
{
    base64::engine::general_purpose::STANDARD.encode(data)
}

// ---------------------------------------------------------------------------
// Conversation items
// ---------------------------------------------------------------------------

/// A lower-case hexadecimal digit.
pub open spec fn is_lower_hex_digit(c: char) -> bool {
    ('0' <= c && c <= '9') || ('a' <= c && c <= 'f')
}

/// An item id for the prefix: `item_<prefix>_` and 16 lower-case
/// hexadecimal digits.
pub open spec fn is_item_id(id: Seq<char>, prefix: Seq<char>) -> bool {
    let head = "item_"@ + prefix + "_"@;
    &&& id.len() == head.len() + 16
    &&& id.subrange(0, head.len() as int) == head
    &&& forall|i: int| head.len() <= i < id.len() ==> is_lower_hex_digit(#[trigger] id[i])
}

/// The item id for the prefix built from a UUID in simple form: `item_`,
/// the prefix, `_` and the UUID's first 16 digits.
pub fn item_id_with(prefix: &str, uuid: &str) -> (id: String)
    requires
        uuid@.len() == 32,
    ensures
        id@ == "item_"@ + prefix@ + "_"@ + uuid@.subrange(0, 16),
{
    let uc = chars_of(uuid);
    let mut id = String::from_str("item_");
    push_str(&mut id, prefix);
    push_str(&mut id, "_");
    crate::text::push_chars(&mut id, uc.as_slice(), 0, 16);
    id
}

/// A fresh item id for the prefix, from a random UUID: `item_`, the
/// prefix, `_` and the first 16 digits of the UUID drawn.
pub fn item_id(prefix: &str) -> (id: String)
    ensures
        is_item_id(id@, prefix@),
{
    let u = uuid_simple();
    let id = item_id_with(prefix, u.as_str());
    proof {
        let head = "item_"@ + prefix@ + "_"@;
        assert(id@.subrange(0, head.len() as int) == head);
        assert forall|i: int| head.len() <= i < id@.len() implies is_lower_hex_digit(#[trigger] id@[i]) by {
            assert(id@[i] == u@[i - head.len()]);
        }
    }
    id
}

/// A part of a message.
#[derive(Clone, Debug)]
pub enum ContentPart {
    /// Text, of type `input_text` or `output_text`.
    Text { kind: String, text: String },
    /// An image, as a data URL, analysed at automatic detail.
    Image { url: String },
}

/// A message of the conversation.
#[derive(Clone, Debug)]
pub struct HistoryItem {
    pub id: String,
    pub role: String,
    pub content: Vec<ContentPart>,
}

/// `item` is a message of the role with one text part of the type.
pub open spec fn is_text_message(item: HistoryItem, role: Seq<char>, kind: Seq<char>, text: Seq<char>) -> bool {
    &&& is_item_id(item.id@, role)
    &&& item.role@ == role
    &&& item.content@.len() == 1
    &&& item.content@[0] matches ContentPart::Text { kind: k, text: t } && k@ == kind && t@ == text
}

/// A message with one text part and a fresh id.
pub fn message_item(role: &str, content_type: &str, text: &str) -> (item: HistoryItem)
    ensures
        is_text_message(item, role@, content_type@, text@),
{
    let id = item_id(role);
    let mut content: Vec<ContentPart> = Vec::new();
    content.push(ContentPart::Text { kind: owned(content_type), text: owned(text) });
    HistoryItem { id, role: owned(role), content }
}

/// The ids of items with ids removed, keeping the others in order.
pub open spec fn without_id(items: Seq<HistoryItem>, id: Seq<char>) -> Seq<HistoryItem>
    decreases items.len(),
{
    if items.len() == 0 {
        seq![]
    } else if items.last().id@ == id {
        without_id(items.drop_last(), id)
    } else {
        without_id(items.drop_last(), id).push(items.last())
    }
}

/// The ids of items, in order.
pub open spec fn ids_of(items: Seq<HistoryItem>) -> Seq<Seq<char>> {
    items.map_values(|it: HistoryItem| it.id@)
}

/// The conversation that is replayed on every connection.
#[derive(Clone, Debug)]
pub struct RealtimeHistory {
    pub items: Vec<HistoryItem>,
}

impl RealtimeHistory {
    /// An empty conversation.
    pub fn new() -> (h: Self)
        ensures
            h.items@.len() == 0,
    {
        RealtimeHistory { items: Vec::new() }
    }

    /// Appends an item that the server accepted.
    pub fn push(&mut self, item: HistoryItem)
        ensures
            final(self).items@ == old(self).items@.push(item),
    {
        self.items.push(item);
    }

    /// Forgets every item.
    pub fn clear(&mut self)
        ensures
            final(self).items@.len() == 0,
    {
        self.items = Vec::new();
    }

    /// The references that a response uses as its input: every item's id,
    /// in order.
    pub fn references(&self) -> (r: Vec<String>)
        ensures
            r@.map_values(|s: String| s@) == ids_of(self.items@),
    {
        let mut r: Vec<String> = Vec::new();
        let mut i: usize = 0;
        while i < self.items.len()
            invariant
                i <= self.items@.len(),
                r@.map_values(|s: String| s@) == ids_of(self.items@.subrange(0, i as int)),
            decreases self.items.len() - i,
        {
            r.push(owned(self.items[i].id.as_str()));
            proof {
                assert(ids_of(self.items@.subrange(0, i + 1)) =~= ids_of(self.items@.subrange(0, i as int)).push(
                    self.items@[i as int].id@,
                ));
                assert(r@.map_values(|s: String| s@) =~= ids_of(self.items@.subrange(0, i as int)).push(
                    self.items@[i as int].id@,
                ));
            }
            i += 1;
        }
        proof {
            assert(self.items@.subrange(0, self.items@.len() as int) == self.items@);
        }
        r
    }

    /// Removes every item with the id, keeping the others in order.
    pub fn remove_id(&mut self, id: &str)
        ensures
            final(self).items@ == without_id(old(self).items@, id@),
    {
        let ghost before = self.items@;
        let mut kept: Vec<HistoryItem> = Vec::new();
        let mut rest: Vec<HistoryItem> = Vec::new();
        std::mem::swap(&mut rest, &mut self.items);
        while rest.len() > 0
            invariant
                rest@.len() <= before.len(),
                rest@ == before.subrange(before.len() - rest@.len(), before.len() as int),
                kept@ == without_id(before.subrange(0, before.len() - rest@.len()), id@),
            decreases rest.len(),
        {
            let ghost r0 = rest@;
            let ghost done = before.len() - r0.len();
            let it = rest.remove(0);
            proof {
                assert(it == before[done]);
                assert(rest@ == before.subrange(done + 1, before.len() as int));
                let p = before.subrange(0, done + 1);
                assert(p.drop_last() == before.subrange(0, done));
                assert(p.last() == it);
            }
            if !str_eq(it.id.as_str(), id) {
                kept.push(it);
            }
        }
        proof {
            assert(before.subrange(0, before.len() as int) == before);
        }
        self.items = kept;
    }
}

// ---------------------------------------------------------------------------
// Tables keyed by text
// ---------------------------------------------------------------------------

/// The value of the last entry with the key.
pub open spec fn lookup<V>(entries: Seq<(String, V)>, key: Seq<char>) -> Option<V>
    decreases entries.len(),
{
    if entries.len() == 0 {
        None
    } else if entries.last().0@ == key {
        Some(entries.last().1)
    } else {
        lookup(entries.drop_last(), key)
    }
}

/// A table from turn or response ids to values, as a list of entries of
/// which the last one with a key counts.
#[derive(Clone, Debug)]
pub struct TurnTable<V> {
    pub entries: Vec<(String, V)>,
}

/// The entries without those of the key.
pub open spec fn without_key<V>(entries: Seq<(String, V)>, key: Seq<char>) -> Seq<(String, V)>
    decreases entries.len(),
{
    if entries.len() == 0 {
        seq![]
    } else if entries.last().0@ == key {
        without_key(entries.drop_last(), key)
    } else {
        without_key(entries.drop_last(), key).push(entries.last())
    }
}

proof fn lemma_lookup_without_key<V>(entries: Seq<(String, V)>, key: Seq<char>, k: Seq<char>)
    ensures
        lookup(without_key(entries, key), k) == if k == key {
            None
        } else {
            lookup(entries, k)
        },
    decreases entries.len(),
{
    if entries.len() > 0 {
        lemma_lookup_without_key(entries.drop_last(), key, k);
        if entries.last().0@ != key {
            let w = without_key(entries.drop_last(), key).push(entries.last());
            assert(w.drop_last() == without_key(entries.drop_last(), key));
        }
    }
}

impl<V> TurnTable<V> {
    /// An empty table.
    pub fn new() -> (t: Self)
        ensures
            t.entries@.len() == 0,
    {
        TurnTable { entries: Vec::new() }
    }

    /// The value of a key.
    pub open spec fn get_spec(self, key: Seq<char>) -> Option<V> {
        lookup(self.entries@, key)
    }

    /// Sets the value of a key.
    pub fn insert(&mut self, key: String, value: V)
        ensures
            forall|k: Seq<char>| #[trigger] final(self).get_spec(k) == if k == key@ {
                Some(value)
            } else {
                old(self).get_spec(k)
            },
    {
        let ghost before = self.entries@;
        let ghost kv = key@;
        self.entries.push((key, value));
        proof {
            assert forall|k: Seq<char>| #[trigger] lookup(self.entries@, k) == if k == kv {
                Some(value)
            } else {
                lookup(before, k)
            } by {
                assert(self.entries@.drop_last() == before);
            }
        }
    }

    /// The value of a key, if it has one.
    pub fn get(&self, key: &str) -> (r: Option<&V>)
        ensures
            match self.get_spec(key@) {
                Some(v) => r == Some(&v),
                None => r is None,
            },
    {
        let mut j = self.entries.len();
        proof {
            assert(self.entries@.subrange(0, self.entries@.len() as int) == self.entries@);
        }
        while j > 0
            invariant
                j <= self.entries@.len(),
                lookup(self.entries@, key@) == lookup(self.entries@.subrange(0, j as int), key@),
            decreases j,
        {
            let ghost p = self.entries@.subrange(0, j as int);
            proof {
                assert(p.last() == self.entries@[j - 1]);
                assert(p.drop_last() == self.entries@.subrange(0, j - 1));
            }
            if str_eq(self.entries[j - 1].0.as_str(), key) {
                return Some(&self.entries[j - 1].1);
            }
            j -= 1;
        }
        None
    }

    /// Removes a key; returns its value, if it had one.
    pub fn remove(&mut self, key: &str) -> (r: Option<V>)
        ensures
            r == old(self).get_spec(key@),
            forall|k: Seq<char>| #[trigger] final(self).get_spec(k) == if k == key@ {
                None
            } else {
                old(self).get_spec(k)
            },
    {
        let ghost before = self.entries@;
        let mut rest: Vec<(String, V)> = Vec::new();
        std::mem::swap(&mut rest, &mut self.entries);
        let mut found: Option<V> = None;
        let mut kept: Vec<(String, V)> = Vec::new();
        let ghost all = before;
        while rest.len() > 0
            invariant
                all == before,
                rest@.len() <= before.len(),
                rest@ == before.subrange(before.len() - rest@.len(), before.len() as int),
                kept@ == without_key(before.subrange(0, before.len() - rest@.len()), key@),
                found == lookup(before.subrange(0, before.len() - rest@.len()), key@),
            decreases rest.len(),
        {
            let ghost r0 = rest@;
            let ghost done = before.len() - r0.len();
            let it = rest.remove(0);
            proof {
                assert(it == before[done]);
                assert(rest@ == before.subrange(done + 1, before.len() as int));
                let p = before.subrange(0, done + 1);
                assert(p.drop_last() == before.subrange(0, done));
                assert(p.last() == it);
            }
            if str_eq(it.0.as_str(), key) {
                found = Some(it.1);
            } else {
                kept.push(it);
            }
        }
        proof {
            assert(all.subrange(0, all.len() as int) == all);
            assert forall|k: Seq<char>| #[trigger] lookup(kept@, k) == if k == key@ {
                None
            } else {
                lookup(before, k)
            } by {
                lemma_lookup_without_key(before, key@, k);
            }
        }
        self.entries = kept;
        found
    }

    /// Forgets every key.
    pub fn clear(&mut self)
        ensures
            forall|k: Seq<char>| #[trigger] final(self).get_spec(k) is None,
    {
        self.entries = Vec::new();
    }
}

/// A value read back after it was written under a key is that value, and
/// writing a key leaves the other keys as they were.
pub proof fn lemma_turn_table_read_after_write<V>(entries: Seq<(String, V)>, key: String, value: V, other: Seq<char>)
    ensures
        lookup(entries.push((key, value)), key@) == Some(value),
        other != key@ ==> lookup(entries.push((key, value)), other) == lookup(entries, other),
{
    assert(entries.push((key, value)).drop_last() == entries);
}

/// After a key is removed, it has no value, and the other keys keep theirs.
pub proof fn lemma_turn_table_read_after_remove<V>(entries: Seq<(String, V)>, key: Seq<char>, other: Seq<char>)
    ensures
        lookup(without_key(entries, key), key) is None,
        other != key ==> lookup(without_key(entries, key), other) == lookup(entries, other),
{
    lemma_lookup_without_key(entries, key, key);
    lemma_lookup_without_key(entries, key, other);
}

// ---------------------------------------------------------------------------
// Server events
// ---------------------------------------------------------------------------

/// An event of the realtime connection, reduced to the fields that matter.
#[derive(Clone, Debug)]
pub enum ServerEvent {
    /// The connection failed.
    TransportError(String),
    /// `session.updated`: the session accepted its configuration.
    SessionUpdated,
    /// `response.created`, with the response id and the turn id it carries.
    ResponseCreated { response_id: Option<String>, turn_id: Option<String> },
    /// `response.output_text.delta` or `response.text.delta` (absent fields
    /// are empty).
    TextDelta { response_id: String, delta: String },
    /// `response.done`, with its status, error details and the texts of its
    /// output parts.
    ResponseDone {
        response_id: String,
        status: Option<String>,
        error_message: Option<String>,
        reason: Option<String>,
        output_texts: Vec<String>,
    },
    /// `error`, with its message and the response it concerns (empty if none).
    Error { message: Option<String>, response_id: String },
    /// Anything else.
    Other,
}

/// What an event leads to, in order.
#[derive(Debug)]
pub enum ReaderAction {
    /// Tell the connecting task how setup ended.
    SignalReady(Result<(), String>),
    /// The connection is ready for turns.
    MarkReady,
    /// Stream a piece of an answer to the window.
    EmitDelta { turn_id: String, delta: String },
    /// A complete answer.
    EmitDone { turn_id: String, text: String },
    /// An error, for a turn or for the connection.
    EmitError { turn_id: Option<String>, message: String },
    /// Replace the screenshots of the turn in the history by text.
    CompactImageTurn { turn_id: String },
    /// Append the answer to the history as an assistant message with this text.
    AppendQuickAnswer { turn_id: String, text: String },
    /// The connection is over.
    Stop,
}

/// Texts concatenated in order.
pub open spec fn concat_all(texts: Seq<Seq<char>>) -> Seq<char>
    decreases texts.len(),
{
    if texts.len() == 0 {
        seq![]
    } else {
        concat_all(texts.drop_last()) + texts.last()
    }
}

/// The views of strings.
pub open spec fn views(v: Seq<String>) -> Seq<Seq<char>> {
    v.map_values(|s: String| s@)
}

/// The reader of a connection: whether setup still waits, which turn each
/// response answers, and the text streamed so far for each response.
#[derive(Clone, Debug)]
pub struct RealtimeReader {
    pub ready_pending: bool,
    pub response_turns: TurnTable<String>,
    pub response_text: TurnTable<String>,
}

/// The text of a finished response: what was streamed, else the output.
pub open spec fn done_text(streamed: Option<String>, output: Seq<Seq<char>>) -> Seq<char> {
    match streamed {
        Some(t) => t@,
        None => concat_all(output),
    }
}

/// The status of a finished response: `completed` unless it says otherwise.
pub open spec fn done_status(status: Option<String>) -> Seq<char> {
    match status {
        Some(s) => s@,
        None => "completed"@,
    }
}

/// Why a response failed: its error message, else its reason, else a
/// description of what went wrong.
pub open spec fn failure_detail(error_message: Option<String>, reason: Option<String>, text: Seq<char>) -> Seq<char> {
    match error_message {
        Some(m) => m@,
        None => match reason {
            Some(r) => r@,
            None => if trim(text).len() == 0 {
                "Realtime returned no text"@
            } else {
                "Realtime response did not complete"@
            },
        },
    }
}

/// The text of the assistant message that records an answer.
pub open spec fn quick_answer_text(turn_id: Seq<char>, text: Seq<char>) -> Seq<char> {
    "QUICK_ANSWER turn="@ + turn_id + "\n"@ + trim(text)
}

fn concat_strings(v: &Vec<String>) -> (s: String)
    ensures
        s@ == concat_all(views(v@)),
{
    let mut s = String::new();
    let mut i: usize = 0;
    while i < v.len()
        invariant
            i <= v@.len(),
            s@ == concat_all(views(v@.subrange(0, i as int))),
        decreases v.len() - i,
    {
        push_str(&mut s, v[i].as_str());
        proof {
            let p = views(v@.subrange(0, i + 1));
            assert(p.drop_last() =~= views(v@.subrange(0, i as int)));
            assert(p.last() == v@[i as int]@);
        }
        i += 1;
    }
    proof {
        assert(v@.subrange(0, v@.len() as int) == v@);
    }
    s
}

impl RealtimeReader {
    /// A reader whose setup still waits, with no response in flight.
    pub fn new() -> (r: Self)
        ensures
            r.ready_pending,
            forall|k: Seq<char>| #[trigger] r.response_turns.get_spec(k) is None,
            forall|k: Seq<char>| #[trigger] r.response_text.get_spec(k) is None,
    {
        RealtimeReader { ready_pending: true, response_turns: TurnTable::new(), response_text: TurnTable::new() }
    }

    /// Handles one event of the connection.
    ///
    /// A transport error fails a pending setup, is reported and ends the
    /// connection. `session.updated` marks it ready. `response.created`
    /// records the turn of a response. A text delta of a known response is
    /// appended to its text and streamed. `response.done` of a known
    /// response forgets it and either reports the failure (`{detail}
    /// ({status})`) or delivers the answer, compacts the turn's screenshots
    /// and records the answer. An `error` event fails a pending setup and is
    /// reported for the response it names.
    pub fn step(&mut self, event: ServerEvent) -> (acts: Vec<ReaderAction>)
        ensures
            match event {
                ServerEvent::TransportError(e) => {
                    &&& final(self).response_turns == old(self).response_turns
                    &&& final(self).response_text == old(self).response_text
                    &&& !final(self).ready_pending
                    &&& if old(self).ready_pending {
                        acts@.len() == 3 && (acts@[0] matches ReaderAction::SignalReady(Err(m)) && m@
                            == e@) && (acts@[1] matches ReaderAction::EmitError { turn_id: None, message }
                            && message@ == e@) && acts@[2] is Stop
                    } else {
                        acts@.len() == 2 && (acts@[0] matches ReaderAction::EmitError { turn_id: None, message }
                            && message@ == e@) && acts@[1] is Stop
                    }
                },
                ServerEvent::SessionUpdated => {
                    &&& final(self).response_turns == old(self).response_turns
                    &&& final(self).response_text == old(self).response_text
                    &&& !final(self).ready_pending
                    &&& acts@.len() == (if old(self).ready_pending { 2int } else { 1int })
                    &&& acts@[0] is MarkReady
                    &&& old(self).ready_pending ==> (acts@[1] matches ReaderAction::SignalReady(r) && r is Ok)
                },
                ServerEvent::ResponseCreated { response_id, turn_id } => {
                    &&& acts@.len() == 0
                    &&& final(self).ready_pending == old(self).ready_pending
                    &&& final(self).response_text == old(self).response_text
                    &&& match (response_id, turn_id) {
                        (Some(r), Some(t)) => forall|k: Seq<char>| #[trigger] final(self).response_turns.get_spec(k)
                            == if k == r@ { Some(t) } else { old(self).response_turns.get_spec(k) },
                        _ => final(self).response_turns == old(self).response_turns,
                    }
                },
                ServerEvent::TextDelta { response_id, delta } => {
                    &&& final(self).ready_pending == old(self).ready_pending
                    &&& final(self).response_turns == old(self).response_turns
                    &&& match old(self).response_turns.get_spec(response_id@) {
                        Some(turn) => {
                            &&& acts@.len() == 1
                            &&& acts@[0] matches ReaderAction::EmitDelta { turn_id, delta: d }
                                && turn_id@ == turn@ && d@ == delta@
                            &&& final(self).response_text.get_spec(response_id@) matches Some(t) && t@
                                == match old(self).response_text.get_spec(response_id@) {
                                    Some(p) => p@,
                                    None => seq![],
                                } + delta@
                            &&& forall|k: Seq<char>| k != response_id@ ==> #[trigger] final(self).response_text.get_spec(k)
                                == old(self).response_text.get_spec(k)
                        },
                        None => acts@.len() == 0 && final(self).response_text == old(self).response_text,
                    }
                },
                ServerEvent::ResponseDone { response_id, status, error_message, reason, output_texts } => {
                    &&& final(self).ready_pending == old(self).ready_pending
                    &&& match old(self).response_turns.get_spec(response_id@) {
                        None => acts@.len() == 0 && (forall|k: Seq<char>| #[trigger] final(self).response_turns.get_spec(k)
                            == old(self).response_turns.get_spec(k)) && final(self).response_text == old(self).response_text,
                        Some(turn) => {
                            let text = done_text(old(self).response_text.get_spec(response_id@), views(output_texts@));
                            let st = done_status(status);
                            &&& forall|k: Seq<char>| #[trigger] final(self).response_turns.get_spec(k)
                                == if k == response_id@ { None } else { old(self).response_turns.get_spec(k) }
                            &&& forall|k: Seq<char>| #[trigger] final(self).response_text.get_spec(k)
                                == if k == response_id@ { None } else { old(self).response_text.get_spec(k) }
                            &&& if st != "completed"@ || trim(text).len() == 0 {
                                acts@.len() == 1 && (acts@[0] matches ReaderAction::EmitError { turn_id: Some(t), message }
                                    && t@ == turn@ && message@ == failure_detail(error_message, reason, text)
                                    + " ("@ + st + ")"@)
                            } else {
                                &&& acts@.len() == 3
                                &&& acts@[0] matches ReaderAction::EmitDone { turn_id, text: x } && turn_id@
                                    == turn@ && x@ == text
                                &&& acts@[1] matches ReaderAction::CompactImageTurn { turn_id } && turn_id@ == turn@
                                &&& acts@[2] matches ReaderAction::AppendQuickAnswer { turn_id, text: x }
                                    && turn_id@ == turn@ && x@ == quick_answer_text(turn@, text)
                            }
                        },
                    }
                },
                ServerEvent::Error { message, response_id } => {
                    let m = match message {
                        Some(x) => x@,
                        None => "OpenAI Realtime error"@,
                    };
                    &&& final(self).response_text == old(self).response_text
                    &&& !final(self).ready_pending
                    &&& forall|k: Seq<char>| #[trigger] final(self).response_turns.get_spec(k)
                        == if k == response_id@ { None } else { old(self).response_turns.get_spec(k) }
                    &&& acts@.len() == (if old(self).ready_pending { 2int } else { 1int })
                    &&& old(self).ready_pending ==> (acts@[0] matches ReaderAction::SignalReady(Err(e)) && e@ == m)
                    &&& acts@.last() matches ReaderAction::EmitError { turn_id, message: e } && e@ == m
                        && match old(self).response_turns.get_spec(response_id@) {
                        Some(t) => turn_id matches Some(x) && x@ == t@,
                        None => turn_id is None,
                    }
                },
                ServerEvent::Other => {
                    &&& acts@.len() == 0
                    &&& final(self).ready_pending == old(self).ready_pending
                    &&& final(self).response_turns == old(self).response_turns
                    &&& final(self).response_text == old(self).response_text
                },
            },
    {
        let mut acts: Vec<ReaderAction> = Vec::new();
        match event {
            ServerEvent::TransportError(e) => {
                if self.ready_pending {
                    acts.push(ReaderAction::SignalReady(Err(owned(e.as_str()))));
                }
                self.ready_pending = false;
                acts.push(ReaderAction::EmitError { turn_id: None, message: e });
                acts.push(ReaderAction::Stop);
            },
            ServerEvent::SessionUpdated => {
                acts.push(ReaderAction::MarkReady);
                if self.ready_pending {
                    acts.push(ReaderAction::SignalReady(Ok(())));
                }
                self.ready_pending = false;
            },
            ServerEvent::ResponseCreated { response_id, turn_id } => {
                match (response_id, turn_id) {
                    (Some(r), Some(t)) => {
                        self.response_turns.insert(r, t);
                    },
                    _ => {},
                }
            },
            ServerEvent::TextDelta { response_id, delta } => {
                let known = match self.response_turns.get(response_id.as_str()) {
                    Some(t) => Some(owned(t.as_str())),
                    None => None,
                };
                if let Some(turn) = known {
                    let mut text = match self.response_text.get(response_id.as_str()) {
                        Some(t) => owned(t.as_str()),
                        None => String::new(),
                    };
                    push_str(&mut text, delta.as_str());
                    self.response_text.insert(response_id, text);
                    acts.push(ReaderAction::EmitDelta { turn_id: turn, delta });
                }
            },
            ServerEvent::ResponseDone { response_id, status, error_message, reason, output_texts } => {
                let removed = self.response_turns.remove(response_id.as_str());
                if let Some(turn) = removed {
                    let text = match self.response_text.remove(response_id.as_str()) {
                        Some(t) => t,
                        None => concat_strings(&output_texts),
                    };
                    let st = match &status {
                        Some(s) => owned(s.as_str()),
                        None => String::from_str("completed"),
                    };
                    let trimmed = trim_str(text.as_str());
                    let blank = chars_of(trimmed.as_str()).len() == 0;
                    if !str_eq(st.as_str(), "completed") || blank {
                        let mut message = match &error_message {
                            Some(m) => owned(m.as_str()),
                            None => match &reason {
                                Some(r) => owned(r.as_str()),
                                None => if blank {
                                    String::from_str("Realtime returned no text")
                                } else {
                                    String::from_str("Realtime response did not complete")
                                },
                            },
                        };
                        push_str(&mut message, " (");
                        push_str(&mut message, st.as_str());
                        push_str(&mut message, ")");
                        acts.push(ReaderAction::EmitError { turn_id: Some(turn), message });
                    } else {
                        let mut record = String::from_str("QUICK_ANSWER turn=");
                        push_str(&mut record, turn.as_str());
                        push_str(&mut record, "\n");
                        push_str(&mut record, trimmed.as_str());
                        acts.push(ReaderAction::EmitDone { turn_id: owned(turn.as_str()), text });
                        acts.push(ReaderAction::CompactImageTurn { turn_id: owned(turn.as_str()) });
                        acts.push(ReaderAction::AppendQuickAnswer { turn_id: turn, text: record });
                    }
                }
            },
            ServerEvent::Error { message, response_id } => {
                let m = match message {
                    Some(x) => x,
                    None => String::from_str("OpenAI Realtime error"),
                };
                let turn = self.response_turns.remove(response_id.as_str());
                if self.ready_pending {
                    acts.push(ReaderAction::SignalReady(Err(owned(m.as_str()))));
                }
                self.ready_pending = false;
                acts.push(ReaderAction::EmitError { turn_id: turn, message: m });
            },
            ServerEvent::Other => {},
        }
        acts
    }
}

// ---------------------------------------------------------------------------
// Sessions and turns
// ---------------------------------------------------------------------------

/// The text-only stand-in for a turn's screenshots, and the item it replaces.
#[derive(Clone, Debug)]
pub struct ImageHistoryReplacement {
    pub image_item_id: String,
    pub replacement: HistoryItem,
}

/// The Quick lane's session: the history, the inputs of every turn (for
/// retries), the turns whose screenshots await compaction, the fingerprint
/// of the context in the history, and a generation that each start and
/// close moves.
#[derive(Clone, Debug)]
pub struct RealtimeSession {
    pub history: RealtimeHistory,
    pub turn_references: TurnTable<Vec<String>>,
    pub pending_image_history: TurnTable<ImageHistoryReplacement>,
    pub context_hash: Option<String>,
    pub generation: u64,
}

/// The session holds no conversation.
pub open spec fn is_cleared(s: RealtimeSession) -> bool {
    &&& s.history.items@.len() == 0
    &&& forall|k: Seq<char>| #[trigger] s.turn_references.get_spec(k) is None
    &&& forall|k: Seq<char>| #[trigger] s.pending_image_history.get_spec(k) is None
    &&& s.context_hash is None
}

impl RealtimeSession {
    /// An empty session of generation zero.
    pub fn new() -> (s: Self)
        ensures
            is_cleared(s),
            s.generation == 0,
    {
        RealtimeSession {
            history: RealtimeHistory::new(),
            turn_references: TurnTable::new(),
            pending_image_history: TurnTable::new(),
            context_hash: None,
            generation: 0,
        }
    }

    /// A preparation starts: returns its generation.
    pub fn begin_preparation(&mut self) -> (g: u64)
        ensures
            g == old(self).generation.wrapping_add(1),
            final(self).generation == g,
            final(self).history == old(self).history,
            final(self).turn_references == old(self).turn_references,
            final(self).pending_image_history == old(self).pending_image_history,
            final(self).context_hash == old(self).context_hash,
    {
        self.generation = self.generation.wrapping_add(1);
        self.generation
    }

    /// Whether the preparation of generation `g` is still current.
    pub fn check_generation(&self, g: u64) -> (r: Result<(), String>)
        ensures
            self.generation == g ==> r is Ok,
            self.generation != g ==> (r matches Err(e) && e@ == "Realtime session was closed"@),
    {
        if self.generation != g {
            Err(String::from_str("Realtime session was closed"))
        } else {
            Ok(())
        }
    }

    /// Forgets the conversation (after the connection was reset), keeping the
    /// generation.
    pub fn clear(&mut self)
        ensures
            is_cleared(*final(self)),
            final(self).generation == old(self).generation,
    {
        self.history.clear();
        self.turn_references.clear();
        self.pending_image_history.clear();
        self.context_hash = None;
    }

    /// Closes the session: any preparation in progress is abandoned and the
    /// conversation forgotten.
    pub fn close(&mut self)
        ensures
            is_cleared(*final(self)),
            final(self).generation == old(self).generation.wrapping_add(1),
    {
        self.generation = self.generation.wrapping_add(1);
        self.clear();
    }

    /// Whether the context with fingerprint `hash` still has to be added to
    /// the history.
    pub fn needs_context(&self, hash: &str) -> (r: bool)
        ensures
            r == !(self.context_hash matches Some(h) && h@ == hash@),
    {
        match &self.context_hash {
            Some(h) => !str_eq(h.as_str(), hash),
            None => true,
        }
    }

    /// The history now holds the context with fingerprint `hash`.
    pub fn set_context_hash(&mut self, hash: String)
        ensures
            final(self).context_hash == Some(hash),
            final(self).history == old(self).history,
            final(self).turn_references == old(self).turn_references,
            final(self).pending_image_history == old(self).pending_image_history,
            final(self).generation == old(self).generation,
    {
        self.context_hash = Some(hash);
    }

    /// Records the inputs of a turn, for retries.
    pub fn record_turn(&mut self, turn_id: String, references: Vec<String>)
        ensures
            forall|k: Seq<char>| #[trigger] final(self).turn_references.get_spec(k) == if k == turn_id@ {
                Some(references)
            } else {
                old(self).turn_references.get_spec(k)
            },
            final(self).history == old(self).history,
            final(self).pending_image_history == old(self).pending_image_history,
    {
        self.turn_references.insert(turn_id, references);
    }

    /// The inputs of a turn to retry: the same references it was first
    /// answered from.
    pub fn retry_references(&self, turn_id: &str) -> (r: Result<Vec<String>, String>)
        ensures
            match self.turn_references.get_spec(turn_id@) {
                Some(refs) => r matches Ok(v) && v@ == refs@,
                None => r matches Err(e) && e@ == "Quick turn is no longer available for retry: "@ + turn_id@,
            },
    {
        match self.turn_references.get(turn_id) {
            Some(refs) => Ok(refs.clone()),
            None => {
                let mut e = String::from_str("Quick turn is no longer available for retry: ");
                push_str(&mut e, turn_id);
                Err(e)
            },
        }
    }

    /// Records that a turn's screenshots are to be replaced by text once it
    /// is answered.
    pub fn record_image_turn(&mut self, turn_id: String, entry: ImageHistoryReplacement)
        ensures
            forall|k: Seq<char>| #[trigger] final(self).pending_image_history.get_spec(k) == if k
                == turn_id@ {
                Some(entry)
            } else {
                old(self).pending_image_history.get_spec(k)
            },
            final(self).history == old(self).history,
            final(self).turn_references == old(self).turn_references,
    {
        self.pending_image_history.insert(turn_id, entry);
    }

    /// Takes the replacement of an answered turn's screenshots, if any.
    pub fn take_image_replacement(&mut self, turn_id: &str) -> (r: Option<ImageHistoryReplacement>)
        ensures
            r == old(self).pending_image_history.get_spec(turn_id@),
            forall|k: Seq<char>| #[trigger] final(self).pending_image_history.get_spec(k) == if k
                == turn_id@ {
                None
            } else {
                old(self).pending_image_history.get_spec(k)
            },
            final(self).history == old(self).history,
    {
        self.pending_image_history.remove(turn_id)
    }

    /// The replacement was added to the history: the screenshot item goes.
    pub fn finish_image_compaction(&mut self, entry: &ImageHistoryReplacement)
        ensures
            final(self).history.items@ == without_id(old(self).history.items@, entry.image_item_id@),
            final(self).pending_image_history == old(self).pending_image_history,
    {
        self.history.remove_id(entry.image_item_id.as_str());
    }
}

/// A screenshot turn, once compacted, no longer holds the screenshot item,
/// and the other items stay in order.
pub proof fn lemma_compaction_drops_only_the_image(items: Seq<HistoryItem>, id: Seq<char>)
    ensures
        forall|i: int| 0 <= i < without_id(items, id).len() ==> #[trigger] without_id(items, id)[i].id@ != id,
        without_id(items, id).len() <= items.len(),
    decreases items.len(),
{
    if items.len() > 0 {
        lemma_compaction_drops_only_the_image(items.drop_last(), id);
        let w = without_id(items.drop_last(), id);
        if items.last().id@ != id {
            assert forall|i: int| 0 <= i < w.push(items.last()).len() implies #[trigger] w.push(items.last())[i].id@ != id by {
                if i < w.len() {
                    assert(w.push(items.last())[i] == w[i]);
                }
            }
        }
    }
}

/// The non-empty paths, in order.
pub open spec fn nonempty_paths(paths: Seq<String>) -> Seq<Seq<char>>
    decreases paths.len(),
{
    if paths.len() == 0 {
        seq![]
    } else if paths.last()@.len() == 0 {
        nonempty_paths(paths.drop_last())
    } else {
        nonempty_paths(paths.drop_last()).push(paths.last()@)
    }
}

/// What a user turn sends: its text, when not blank, and its screenshots.
#[derive(Clone, Debug)]
pub struct UserTurnPlan {
    pub text: Option<String>,
    pub image_paths: Vec<String>,
}

/// Plans a user turn: a turn needs a prompt or a screenshot; the prompt is
/// trimmed and empty screenshot paths are dropped.
pub fn plan_user_turn(prompt: &str, image_paths: &Vec<String>) -> (r: Result<UserTurnPlan, String>)
    ensures
        trim(prompt@).len() == 0 && image_paths@.len() == 0 ==> (r matches Err(e) && e@
            == "Nothing to send to Realtime"@),
        !(trim(prompt@).len() == 0 && image_paths@.len() == 0) ==> (r matches Ok(p) && (if trim(prompt@).len()
            == 0 {
            p.text is None
        } else {
            p.text matches Some(t) && t@ == trim(prompt@)
        }) && views(p.image_paths@) == nonempty_paths(image_paths@)),
{
    let t = trim_str(prompt);
    let blank = chars_of(t.as_str()).len() == 0;
    if blank && image_paths.len() == 0 {
        return Err(String::from_str("Nothing to send to Realtime"));
    }
    let mut paths: Vec<String> = Vec::new();
    let mut i: usize = 0;
    while i < image_paths.len()
        invariant
            i <= image_paths@.len(),
            views(paths@) == nonempty_paths(image_paths@.subrange(0, i as int)),
        decreases image_paths.len() - i,
    {
        let ghost p = image_paths@.subrange(0, i + 1);
        proof {
            assert(p.drop_last() == image_paths@.subrange(0, i as int));
            assert(p.last() == image_paths@[i as int]);
        }
        if chars_of(image_paths[i].as_str()).len() > 0 {
            paths.push(owned(image_paths[i].as_str()));
            proof {
                assert(views(paths@) =~= nonempty_paths(image_paths@.subrange(0, i as int)).push(
                    image_paths@[i as int]@,
                ));
            }
        }
        i += 1;
    }
    proof {
        assert(image_paths@.subrange(0, image_paths@.len() as int) == image_paths@);
    }
    Ok(UserTurnPlan { text: if blank { None } else { Some(t) }, image_paths: paths })
}

/// `part` is an image with this data URL.
pub open spec fn is_image(part: ContentPart, u: Seq<char>) -> bool {
    part matches ContentPart::Image { url } && url@ == u
}

/// The user message of a turn: its text, then its screenshots.
pub fn user_item(text: Option<String>, image_urls: Vec<String>) -> (item: HistoryItem)
    ensures
        is_item_id(item.id@, "user"@),
        item.role@ == "user"@,
        item.content@.len() == (if text is Some { 1int } else { 0int }) + image_urls@.len(),
        text matches Some(t) ==> (item.content@[0] matches ContentPart::Text { kind, text: x } && kind@
            == "input_text"@ && x@ == t@),
        forall|i: int| 0 <= i < image_urls@.len() ==> is_image(item.content@[i + if text is Some { 1int } else { 0int }], (#[trigger] image_urls@[i])@),
{
    let id = item_id("user");
    let mut content: Vec<ContentPart> = Vec::new();
    let offset: usize = if text.is_some() { 1 } else { 0 };
    let ghost has_text = text is Some;
    match text {
        Some(t) => content.push(ContentPart::Text { kind: String::from_str("input_text"), text: t }),
        None => {},
    }
    let ghost head = content@;
    let mut i: usize = 0;
    while i < image_urls.len()
        invariant
            i <= image_urls@.len(),
            offset == head.len(),
            offset == (if has_text { 1int } else { 0int }),
            content@.len() == offset + i,
            content@.subrange(0, offset as int) == head,
            forall|k: int| 0 <= k < i ==> is_image(content@[k + offset], (#[trigger] image_urls@[k])@),
        decreases image_urls.len() - i,
    {
        let ghost before = content@;
        let u = owned(image_urls[i].as_str());
        let ghost uv = u@;
        content.push(ContentPart::Image { url: u });
        proof {
            assert(content@[i + offset] == ContentPart::Image { url: u });
            assert(uv == image_urls@[i as int]@);
            assert(content@.subrange(0, offset as int) == before.subrange(0, offset as int));
            assert forall|k: int| 0 <= k < i + 1 implies is_image(content@[k + offset], (#[trigger] image_urls@[k])@) by {
                if k < i {
                    assert(content@[k + offset] == before[k + offset]);
                }
            }
        }
        i += 1;
    }
    proof {
        if offset == 1 {
            assert(content@[0] == content@.subrange(0, 1)[0]);
        }
    }
    HistoryItem { id, role: String::from_str("user"), content }
}

/// The text that stands for a screenshot turn in later turns.
pub open spec fn image_turn_text(turn_id: Seq<char>, prompt: Seq<char>, count: nat) -> Seq<char> {
    "USER_TURN turn="@ + turn_id + "\n"@ + trim(prompt) + "\n["@ + decimal(count)
        + " screenshot(s) were analyzed in this turn; their pixels are not retained in later Quick turns.]"@
}

/// The text message that replaces a screenshot turn once it is answered.
pub fn image_turn_replacement(turn_id: &str, prompt: &str, image_count: usize) -> (item: HistoryItem)
    ensures
        is_text_message(item, "user"@, "input_text"@, image_turn_text(turn_id@, prompt@, image_count as nat)),
{
    let mut text = String::from_str("USER_TURN turn=");
    push_str(&mut text, turn_id);
    push_str(&mut text, "\n");
    let t = trim_str(prompt);
    push_str(&mut text, t.as_str());
    push_str(&mut text, "\n[");
    push_decimal(&mut text, image_count as u64);
    push_str(
        &mut text,
        " screenshot(s) were analyzed in this turn; their pixels are not retained in later Quick turns.]",
    );
    message_item("user", "input_text", text.as_str())
}

/// The system message that carries an authoritative Pi answer into the
/// Quick lane's history; a blank answer adds nothing.
pub fn verified_answer_item(turn_id: &str, answer: &str) -> (r: Option<HistoryItem>)
    ensures
        trim(answer@).len() == 0 ==> r is None,
        trim(answer@).len() > 0 ==> (r matches Some(item) && is_text_message(
            item,
            "system"@,
            "input_text"@,
            "VERIFIED_CODEX_ANSWER turn="@ + turn_id@ + "\n"@ + trim(answer@),
        )),
{
    let t = trim_str(answer);
    if chars_of(t.as_str()).len() == 0 {
        return None;
    }
    let mut text = String::from_str("VERIFIED_CODEX_ANSWER turn=");
    push_str(&mut text, turn_id);
    push_str(&mut text, "\n");
    push_str(&mut text, t.as_str());
    Some(message_item("system", "input_text", text.as_str()))
}

/// The system message that puts the candidate's context into the history.
pub fn context_item(info: &ContextInfo, text: &str) -> (item: HistoryItem)
    ensures
        is_text_message(
            item,
            "system"@,
            "input_text"@,
            "DIRECT_CANDIDATE_CONTEXT version="@ + info.version@ + " hash="@ + info.hash@
                + "\n<candidate_context>\n"@ + text@ + "\n</candidate_context>"@,
        ),
{
    let mut t = String::from_str("DIRECT_CANDIDATE_CONTEXT version=");
    push_str(&mut t, info.version.as_str());
    push_str(&mut t, " hash=");
    push_str(&mut t, info.hash.as_str());
    push_str(&mut t, "\n<candidate_context>\n");
    push_str(&mut t, text);
    push_str(&mut t, "\n</candidate_context>");
    message_item("system", "input_text", t.as_str())
}

/// The assistant message that records a Quick answer.
pub fn quick_answer_item(text: &str) -> (item: HistoryItem)
    ensures
        is_text_message(item, "assistant"@, "output_text"@, text@),
{
    message_item("assistant", "output_text", text)
}

/// The media type of a screenshot, from its file extension in any ASCII
/// case: JPEG or PNG.
pub open spec fn screenshot_mime(path: Seq<char>) -> Option<Seq<char>> {
    match path_extension(path) {
        Some(e) => if eq_ignore_ascii_case(e, "jpg"@) || eq_ignore_ascii_case(e, "jpeg"@) {
            Some("image/jpeg"@)
        } else if eq_ignore_ascii_case(e, "png"@) {
            Some("image/png"@)
        } else {
            None
        },
        None => None,
    }
}

/// A screenshot's bytes as a data URL; only JPEG and PNG files are sent.
pub fn image_data_url(path: &str, bytes: &[u8]) -> (r: Result<String, String>)
    ensures
        match screenshot_mime(path@) {
            Some(m) => r matches Ok(u) && u@ == "data:"@ + m + ";base64,"@ + base64_standard(bytes@),
            None => r matches Err(e) && e@ == "Unsupported screenshot format: "@ + path@,
        },
{
    let mime: Option<&'static str> = match extension_of(path) {
        Some(e) => {
            let ec = chars_of(e.as_str());
            if eq_ignore_case(ec.as_slice(), chars_of("jpg").as_slice()) || eq_ignore_case(
                ec.as_slice(),
                chars_of("jpeg").as_slice(),
            ) {
                Some("image/jpeg")
            } else if eq_ignore_case(ec.as_slice(), chars_of("png").as_slice()) {
                Some("image/png")
            } else {
                None
            }
        },
        None => None,
    };
    match mime {
        Some(m) => {
            let mut u = String::from_str("data:");
            push_str(&mut u, m);
            push_str(&mut u, ";base64,");
            let encoded = base64_encode(bytes);
            push_str(&mut u, encoded.as_str());
            Ok(u)
        },
        None => {
            let mut e = String::from_str("Unsupported screenshot format: ");
            push_str(&mut e, path);
            Err(e)
        },
    }
}

/// The realtime endpoint of the Quick lane's model.
pub fn realtime_url() -> (u: String)
    ensures
        u@ == "wss://api.openai.com/v1/realtime?model="@ + REALTIME_MODEL@,
{
    let mut u = String::from_str("wss://api.openai.com/v1/realtime?model=");
    push_str(&mut u, REALTIME_MODEL);
    u
}

/// The outcome of waiting for the realtime session to accept its setup.
pub fn setup_readiness(w: ReadyWait) -> (r: Result<(), String>)
    ensures
        match w {
            ReadyWait::Ready => r is Ok,
            ReadyWait::Failed(e) => r matches Err(m) && m@ == e@,
            ReadyWait::Closed => r matches Err(m) && m@ == "OpenAI Realtime closed during setup"@,
            ReadyWait::TimedOut => r matches Err(m) && m@ == "OpenAI Realtime setup timed out"@,
        },
{
    readiness_result(w, "OpenAI Realtime closed during setup", "OpenAI Realtime setup timed out")
}

/// The OpenAI key, resolved like any secret (see `load_secret`) from the
/// environment variable's value and the candidate files.
pub fn configured_openai_key(env: Option<String>, candidates: &Vec<EnvCandidate>) -> (r: Result<String, String>)
    ensures
        match secret_of("OPENAI_API_KEY"@, match env { Some(v) => Some(v@), None => None }, candidates@) {
            Ok(v) => r matches Ok(s) && s@ == v,
            Err(m) => r matches Err(e) && e@ == m,
        },
{
    load_secret("OPENAI_API_KEY", env, candidates)
}

} // verus!
