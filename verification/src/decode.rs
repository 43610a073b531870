//! Decoding of inbound stream messages into normalized events.
//!
//! The account-activity feed sends one JSON object per message, with the
//! batch under `actions`; the event feed sends a bare JSON array. Either way
//! the events come out in wire order.

use vstd::prelude::*;
use crate::event::{
    fields_view, find_field, find_event_field, find_json_field, find_text_field, json_field,
    log_event_model, text_field, ActionPayload, EventField, EventModel, FieldModel, FieldValue,
    IncomingEvent, PayloadModel,
};
use crate::json::{
    json_array, json_object, json_string, json_u64, pairs_of, parse_array, parse_object,
    parse_string, parse_u64,
};
use crate::template::opt_text;
use crate::text::{each_text, same_text};

verus! {

/// Why a message could not be decoded.
#[derive(Clone, Copy, Debug, PartialEq, Eq, Structural)]
pub enum DecodeError {
    /// The message is not one JSON object.
    NotAnEnvelope,
    /// The envelope has no `actions` field that is not a string.
    NoActions,
    /// The batch is not one JSON array.
    NotAList,
}

/// Which upstream a connection talks to, and so how its messages are framed.
#[derive(Clone, Copy, Debug, PartialEq, Eq, Structural)]
pub enum UpstreamShape {
    /// One envelope per message, the batch under `actions`.
    AccountActivity,
    /// A bare list of event objects per message.
    EventFeed,
}

/// The field under `name` whose value has the JSON text `raw`: a text
/// field where that value is a JSON string (`text` holds its characters),
/// else a field that keeps the JSON text.
pub open spec fn field_of(name: Seq<char>, raw: Seq<char>, text: Option<Seq<char>>) -> FieldModel {
    match text {
        Some(s) => FieldModel { name, is_text: true, text: s },
        None => FieldModel { name, is_text: false, text: raw },
    }
}

/// The field that one entry of a parsed object stands for.
pub open spec fn field_model(entry: (Seq<char>, Seq<char>)) -> FieldModel {
    field_of(entry.0, entry.1, json_string(entry.1))
}

/// Makes the field under `name` from the JSON text of its value and, where
/// that value is a JSON string, the string's characters.
pub fn field_from(name: String, raw: String, text: Option<String>) -> (r: EventField)
    ensures
        r@ == field_of(name@, raw@, opt_text(text)),
{
    match text {
        Some(s) => EventField { name, value: FieldValue::Text(s) },
        None => EventField { name, value: FieldValue::Json(raw) },
    }
}

/// The top-level fields of the JSON object that `text` holds; none where
/// `text` is not an object.
pub open spec fn object_fields(text: Seq<char>) -> Seq<FieldModel> {
    match json_object(text) {
        Some(entries) => entries.map_values(|e: (Seq<char>, Seq<char>)| field_model(e)),
        None => Seq::empty(),
    }
}

/// Reads the top-level fields of the JSON object that `text` holds.
pub fn decode_fields(text: &str) -> (r: Vec<EventField>)
    ensures
        fields_view(r@) == object_fields(text@),
{
    let mut out: Vec<EventField> = Vec::new();
    match parse_object(text) {
        Ok(entries) => {
            let ghost all = pairs_of(entries@);
            let n = entries.len();
            let mut i: usize = 0;
            while i < n
                invariant
                    i <= n,
                    n == entries.len(),
                    out.len() == i,
                    all == pairs_of(entries@),
                    forall|k: int| 0 <= k < i ==> (#[trigger] out@[k])@ == field_model(all[k]),
                decreases n - i,
            {
                assert(all[i as int] == (entries@[i as int].0@, entries@[i as int].1@));
                let name = entries[i].0.clone();
                let raw = entries[i].1.clone();
                let text = match parse_string(raw.as_str()) {
                    Ok(s) => Some(s),
                    Err(_) => None,
                };
                out.push(field_from(name, raw, text));
                i = i + 1;
            }
            assert(fields_view(out@) =~= object_fields(text@));
        },
        Err(_) => {
            assert(fields_view(out@) =~= object_fields(text@));
        },
    }
    out
}

/// The kind of action that a kind name and the fields of its body stand
/// for. A function call needs a text field `method_name` in its body.
pub open spec fn payload_of_kind(kind: Seq<char>, body: Option<Seq<FieldModel>>) -> PayloadModel {
    if kind == "FunctionCall"@ {
        match body {
            Some(fields) => match text_field(fields, "method_name"@) {
                Some(m) => PayloadModel::FunctionCall { method_name: m },
                None => PayloadModel::Other,
            },
            None => PayloadModel::Other,
        }
    } else if kind == "Transfer"@ {
        PayloadModel::Transfer
    } else if kind == "DeployContract"@ {
        PayloadModel::DeployContract
    } else if kind == "AddKey"@ || kind == "DeleteKey"@ {
        PayloadModel::KeyManagement
    } else if kind == "CreateAccount"@ || kind == "DeleteAccount"@ {
        PayloadModel::AccountLifecycle
    } else if kind == "Stake"@ {
        PayloadModel::Stake
    } else {
        PayloadModel::Other
    }
}

/// The plain form of an optional list of fields.
pub open spec fn body_view(body: Option<&Vec<EventField>>) -> Option<Seq<FieldModel>> {
    match body {
        Some(fields) => Some(fields_view(fields@)),
        None => None,
    }
}

/// Reads the kind of action from a kind name and the fields of its body.
pub fn payload_from(kind: &str, body: Option<&Vec<EventField>>) -> (r: ActionPayload)
    ensures
        r@ == payload_of_kind(kind@, body_view(body)),
{
    if same_text(kind, "FunctionCall") {
        match body {
            Some(fields) => match find_text_field(fields, "method_name") {
                Some(m) => ActionPayload::FunctionCall { method_name: m },
                None => ActionPayload::Other,
            },
            None => ActionPayload::Other,
        }
    } else if same_text(kind, "Transfer") {
        ActionPayload::Transfer
    } else if same_text(kind, "DeployContract") {
        ActionPayload::DeployContract
    } else if same_text(kind, "AddKey") || same_text(kind, "DeleteKey") {
        ActionPayload::KeyManagement
    } else if same_text(kind, "CreateAccount") || same_text(kind, "DeleteAccount") {
        ActionPayload::AccountLifecycle
    } else if same_text(kind, "Stake") {
        ActionPayload::Stake
    } else {
        ActionPayload::Other
    }
}

/// The kind of action that a kind name and the JSON text of its body stand
/// for.
pub open spec fn payload_named(kind: Seq<char>, body: Option<Seq<char>>) -> PayloadModel {
    payload_of_kind(
        kind,
        match body {
            Some(b) => Some(object_fields(b)),
            None => None,
        },
    )
}

/// Reads the kind of action from a kind name and the JSON text of its body.
pub fn decode_payload_named(kind: &str, body: Option<&str>) -> (r: ActionPayload)
    ensures
        r@ == payload_named(
            kind@,
            match body {
                Some(b) => Some(b@),
                None => None,
            },
        ),
{
    match body {
        Some(b) => {
            let fields = decode_fields(b);
            payload_from(kind, Some(&fields))
        },
        None => payload_from(kind, None),
    }
}

/// The entry that names the kind of a parsed action object: the first as
/// the object is walked. An action object holds one entry, the kind with
/// its body; of an object with several, walked by key, the first key counts.
pub open spec fn kind_entry(entries: Seq<(Seq<char>, Seq<char>)>) -> Option<
    (Seq<char>, Seq<char>),
> {
    if entries.len() >= 1 {
        Some(entries[0])
    } else {
        None
    }
}

/// The plain form of an optional pair of strings.
pub open spec fn pair_view(p: Option<(String, String)>) -> Option<(Seq<char>, Seq<char>)> {
    match p {
        Some((a, b)) => Some((a@, b@)),
        None => None,
    }
}

/// Picks the entry that names the kind of a parsed action object.
pub fn kind_entry_of(entries: &Vec<(String, String)>) -> (r: Option<(String, String)>)
    ensures
        pair_view(r) == kind_entry(pairs_of(entries@)),
{
    if entries.len() >= 1 {
        assert(pairs_of(entries@)[0] == (entries@[0].0@, entries@[0].1@));
        Some((entries[0].0.clone(), entries[0].1.clone()))
    } else {
        None
    }
}

/// The kind name and the body's fields of the action object that `raw`
/// holds; none where `raw` is no object or an empty one.
pub open spec fn tagged_body(raw: Seq<char>) -> Option<(Seq<char>, Seq<FieldModel>)> {
    match json_object(raw) {
        Some(entries) => match kind_entry(entries) {
            Some(entry) => Some((entry.0, object_fields(entry.1))),
            None => None,
        },
        None => None,
    }
}

/// The plain form of an optional kind name with its body's fields.
pub open spec fn tagged_view(t: Option<(String, Vec<EventField>)>) -> Option<
    (Seq<char>, Seq<FieldModel>),
> {
    match t {
        Some((kind, body)) => Some((kind@, fields_view(body@))),
        None => None,
    }
}

/// Reads the kind name and the body's fields of an action object.
pub fn decode_tagged_body(raw: &str) -> (r: Option<(String, Vec<EventField>)>)
    ensures
        tagged_view(r) == tagged_body(raw@),
{
    match parse_object(raw) {
        Ok(entries) => match kind_entry_of(&entries) {
            Some((kind, body)) => {
                let fields = decode_fields(body.as_str());
                Some((kind, fields))
            },
            None => None,
        },
        Err(_) => None,
    }
}

/// The payload that an `action` field stands for. A text field is a kind
/// name alone. Any other field counts where it is an action object, by the
/// kind and body (`tagged`) read from it. Without the field, or without a
/// kind, the payload is unrecognized.
pub open spec fn payload_of_action(
    action: Option<FieldModel>,
    tagged: Option<(Seq<char>, Seq<FieldModel>)>,
) -> PayloadModel {
    match action {
        None => PayloadModel::Other,
        Some(f) => if f.is_text {
            payload_of_kind(f.text, None)
        } else {
            match tagged {
                Some((kind, body)) => payload_of_kind(kind, Some(body)),
                None => PayloadModel::Other,
            }
        },
    }
}

/// The plain form of an optional field.
pub open spec fn field_view(f: Option<&EventField>) -> Option<FieldModel> {
    match f {
        Some(x) => Some(x@),
        None => None,
    }
}

/// Reads the payload from the `action` field and, where that field is an
/// action object, the kind and body read from it.
pub fn payload_from_action(action: Option<&EventField>, tagged: Option<(String, Vec<EventField>)>) -> (r:
    ActionPayload)
    ensures
        r@ == payload_of_action(field_view(action), tagged_view(tagged)),
{
    match action {
        None => ActionPayload::Other,
        Some(field) => match &field.value {
            FieldValue::Text(kind) => payload_from(kind.as_str(), None),
            FieldValue::Json(_) => match tagged {
                Some((kind, body)) => payload_from(kind.as_str(), Some(&body)),
                None => ActionPayload::Other,
            },
        },
    }
}

/// The payload of an action object, read from its `action` field.
pub open spec fn payload_model(fields: Seq<FieldModel>) -> PayloadModel {
    payload_of_action(
        find_field(fields, "action"@),
        match json_field(fields, "action"@) {
            Some(raw) => tagged_body(raw),
            None => None,
        },
    )
}

/// Reads the payload of an action object from its fields.
pub fn decode_payload(fields: &Vec<EventField>) -> (r: ActionPayload)
    ensures
        r@ == payload_model(fields_view(fields@)),
{
    match find_event_field(fields, "action") {
        None => payload_from_action(None, None),
        Some(i) => {
            let tagged = match &fields[i].value {
                FieldValue::Text(_) => None,
                FieldValue::Json(raw) => decode_tagged_body(raw.as_str()),
            };
            payload_from_action(Some(&fields[i]), tagged)
        },
    }
}

/// The number under the first field called `name`, where that field holds
/// an unsigned whole number.
pub open spec fn number_field(fields: Seq<FieldModel>, name: Seq<char>) -> Option<nat> {
    match json_field(fields, name) {
        Some(t) => match json_u64(t) {
            Some(n) => Some(n as nat),
            None => None,
        },
        None => None,
    }
}

/// The normalized event of an action object with the given fields, block
/// height and payload: each identifier is the text field of its name.
pub open spec fn action_model(
    fields: Seq<FieldModel>,
    block_height: Option<nat>,
    payload: PayloadModel,
) -> EventModel {
    EventModel {
        account_id: text_field(fields, "account_id"@),
        predecessor_id: text_field(fields, "predecessor_id"@),
        signer_id: text_field(fields, "signer_id"@),
        tx_hash: text_field(fields, "tx_hash"@),
        receipt_id: text_field(fields, "receipt_id"@),
        block_height,
        status: text_field(fields, "status"@),
        payload,
    }
}

/// The normalized event that a decoded action object stands for.
pub open spec fn action_event_model(fields: Seq<FieldModel>) -> EventModel {
    action_model(fields, number_field(fields, "block_height"@), payload_model(fields))
}

/// Normalizes an action object from its fields, its block height and its
/// payload.
pub fn action_from(fields: &Vec<EventField>, block_height: Option<u64>, payload: ActionPayload) -> (e:
    IncomingEvent)
    ensures
        e@ == action_model(
            fields_view(fields@),
            match block_height {
                Some(h) => Some(h as nat),
                None => None,
            },
            payload@,
        ),
{
    IncomingEvent {
        account_id: find_text_field(fields, "account_id"),
        predecessor_id: find_text_field(fields, "predecessor_id"),
        signer_id: find_text_field(fields, "signer_id"),
        tx_hash: find_text_field(fields, "tx_hash"),
        receipt_id: find_text_field(fields, "receipt_id"),
        block_height,
        status: find_text_field(fields, "status"),
        payload,
    }
}

/// Normalizes a decoded action object.
pub fn decode_action(fields: &Vec<EventField>) -> (e: IncomingEvent)
    ensures
        e@ == action_event_model(fields_view(fields@)),
{
    let block_height = match find_json_field(fields, "block_height") {
        Some(t) => match parse_u64(t.as_str()) {
            Ok(n) => Some(n),
            Err(_) => None,
        },
        None => None,
    };
    let payload = decode_payload(fields);
    action_from(fields, block_height, payload)
}

/// The plain form of a list of events.
pub open spec fn events_view(events: Seq<IncomingEvent>) -> Seq<EventModel> {
    events.map_values(|e: IncomingEvent| e@)
}

/// The event that one element of a batch stands for, by the upstream's shape.
pub open spec fn element_model(shape: UpstreamShape, element: Seq<char>) -> EventModel {
    match shape {
        UpstreamShape::AccountActivity => action_event_model(object_fields(element)),
        UpstreamShape::EventFeed => log_event_model(object_fields(element)),
    }
}

/// The JSON text of the batch inside a message, by the upstream's shape.
pub open spec fn batch_text(shape: UpstreamShape, message: Seq<char>) -> Result<
    Seq<char>,
    DecodeError,
> {
    match shape {
        UpstreamShape::EventFeed => Ok(message),
        UpstreamShape::AccountActivity => match json_object(message) {
            None => Err(DecodeError::NotAnEnvelope),
            Some(_) => match json_field(object_fields(message), "actions"@) {
                None => Err(DecodeError::NoActions),
                Some(list) => Ok(list),
            },
        },
    }
}

/// Picks the batch out of the fields of an envelope.
pub fn actions_text(envelope: &Vec<EventField>) -> (r: Result<String, DecodeError>)
    ensures
        match json_field(fields_view(envelope@), "actions"@) {
            Some(list) => r is Ok && r->Ok_0@ == list,
            None => r == Err::<String, DecodeError>(DecodeError::NoActions),
        },
{
    match find_json_field(envelope, "actions") {
        Some(list) => Ok(list),
        None => Err(DecodeError::NoActions),
    }
}

/// The events that a message stands for, in wire order, or the reason why
/// it stands for none.
pub open spec fn decoded_batch(shape: UpstreamShape, message: Seq<char>) -> Result<
    Seq<EventModel>,
    DecodeError,
> {
    match batch_text(shape, message) {
        Err(e) => Err(e),
        Ok(list) => match json_array(list) {
            None => Err(DecodeError::NotAList),
            Some(elements) => Ok(elements.map_values(|t: Seq<char>| element_model(shape, t))),
        },
    }
}

/// The plain form of a decoding outcome.
pub open spec fn batch_view(r: Result<Vec<IncomingEvent>, DecodeError>) -> Result<
    Seq<EventModel>,
    DecodeError,
> {
    match r {
        Ok(events) => Ok(events_view(events@)),
        Err(e) => Err(e),
    }
}

/// Decodes the elements of a batch that is given as its JSON text.
pub fn decode_list(shape: UpstreamShape, list: &str) -> (r: Result<Vec<IncomingEvent>, DecodeError>)
    ensures
        batch_view(r) == (match json_array(list@) {
            None => Err::<Seq<EventModel>, DecodeError>(DecodeError::NotAList),
            Some(elements) => Ok(elements.map_values(|t: Seq<char>| element_model(shape, t))),
        }),
{
    match parse_array(list) {
        Err(_) => Err(DecodeError::NotAList),
        Ok(elements) => {
            let ghost texts = each_text(elements@);
            let n = elements.len();
            let mut out: Vec<IncomingEvent> = Vec::new();
            let mut i: usize = 0;
            while i < n
                invariant
                    i <= n,
                    n == elements.len(),
                    out.len() == i,
                    texts == each_text(elements@),
                    forall|k: int|
                        0 <= k < i ==> (#[trigger] out@[k])@ == element_model(shape, texts[k]),
                decreases n - i,
            {
                assert(texts[i as int] == elements@[i as int]@);
                let fields = decode_fields(elements[i].as_str());
                let event = match shape {
                    UpstreamShape::AccountActivity => decode_action(&fields),
                    UpstreamShape::EventFeed => IncomingEvent::from_log_fields(fields),
                };
                out.push(event);
                i = i + 1;
            }
            assert(events_view(out@) =~= texts.map_values(
                |t: Seq<char>| element_model(shape, t),
            ));
            Ok(out)
        },
    }
}

/// Decodes one inbound text message into its events, in wire order.
pub fn decode_batch(shape: UpstreamShape, message: &str) -> (r: Result<
    Vec<IncomingEvent>,
    DecodeError,
>)
    ensures
        batch_view(r) == decoded_batch(shape, message@),
{
    match shape {
        UpstreamShape::EventFeed => decode_list(shape, message),
        UpstreamShape::AccountActivity => {
            match parse_object(message) {
                Err(_) => Err(DecodeError::NotAnEnvelope),
                Ok(_) => {
                    let envelope = decode_fields(message);
                    match actions_text(&envelope) {
                        Err(e) => Err(e),
                        Ok(list) => decode_list(shape, list.as_str()),
                    }
                },
            }
        },
    }
}

} // verus!
