//! The normalized event that the pipeline works on.
//!
//! One value of [`IncomingEvent`] stands for one blockchain action or one
//! emitted log event. A field that the upstream message did not carry is
//! `None` here; the `"unknown"` sentinel appears only when text is formatted.

use vstd::prelude::*;
use crate::template::{entries_of, opt_text, FieldEntry, TemplateField};
use crate::text::{decimal_digits, decimal_string, same_text};

verus! {

/// The value of one top-level field of a decoded log event.
#[derive(Clone, Debug, PartialEq, Eq)]
pub enum FieldValue {
    /// A JSON string, held without its quotes and escapes.
    Text(String),
    /// Any other JSON value, held as its compact JSON text.
    Json(String),
}

/// One top-level field of a decoded log event.
#[derive(Clone, Debug, PartialEq, Eq)]
pub struct EventField {
    pub name: String,
    pub value: FieldValue,
}

/// The plain form of an [`EventField`].
pub struct FieldModel {
    pub name: Seq<char>,
    /// Whether the value was a JSON string.
    pub is_text: bool,
    /// The string's characters, or the compact JSON text of another value.
    pub text: Seq<char>,
}

impl View for EventField {
    type V = FieldModel;

    open spec fn view(&self) -> FieldModel {
        match self.value {
            FieldValue::Text(s) => FieldModel { name: self.name@, is_text: true, text: s@ },
            FieldValue::Json(s) => FieldModel { name: self.name@, is_text: false, text: s@ },
        }
    }
}

/// The plain form of a list of fields.
pub open spec fn fields_view(fields: Seq<EventField>) -> Seq<FieldModel> {
    fields.map_values(|f: EventField| f@)
}

/// What an event did: a closed set of kinds.
#[derive(Clone, Debug, PartialEq, Eq)]
pub enum ActionPayload {
    FunctionCall { method_name: String },
    Transfer,
    DeployContract,
    KeyManagement,
    AccountLifecycle,
    Stake,
    /// A log event, with the top-level fields of its decoded object.
    LogEvent { fields: Vec<EventField> },
    /// Anything the decoder did not recognize.
    Other,
}

/// The plain form of an [`ActionPayload`].
pub enum PayloadModel {
    FunctionCall { method_name: Seq<char> },
    Transfer,
    DeployContract,
    KeyManagement,
    AccountLifecycle,
    Stake,
    LogEvent { fields: Seq<FieldModel> },
    Other,
}

impl View for ActionPayload {
    type V = PayloadModel;

    open spec fn view(&self) -> PayloadModel {
        match self {
            ActionPayload::FunctionCall { method_name } => PayloadModel::FunctionCall {
                method_name: method_name@,
            },
            ActionPayload::Transfer => PayloadModel::Transfer,
            ActionPayload::DeployContract => PayloadModel::DeployContract,
            ActionPayload::KeyManagement => PayloadModel::KeyManagement,
            ActionPayload::AccountLifecycle => PayloadModel::AccountLifecycle,
            ActionPayload::Stake => PayloadModel::Stake,
            ActionPayload::LogEvent { fields } => PayloadModel::LogEvent {
                fields: fields_view(fields@),
            },
            ActionPayload::Other => PayloadModel::Other,
        }
    }
}

/// One blockchain action or log event, normalized.
#[derive(Clone, Debug, PartialEq, Eq)]
pub struct IncomingEvent {
    pub account_id: Option<String>,
    pub predecessor_id: Option<String>,
    pub signer_id: Option<String>,
    pub tx_hash: Option<String>,
    pub receipt_id: Option<String>,
    pub block_height: Option<u64>,
    pub status: Option<String>,
    pub payload: ActionPayload,
}

/// The plain form of an [`IncomingEvent`].
pub struct EventModel {
    pub account_id: Option<Seq<char>>,
    pub predecessor_id: Option<Seq<char>>,
    pub signer_id: Option<Seq<char>>,
    pub tx_hash: Option<Seq<char>>,
    pub receipt_id: Option<Seq<char>>,
    pub block_height: Option<nat>,
    pub status: Option<Seq<char>>,
    pub payload: PayloadModel,
}

impl View for IncomingEvent {
    type V = EventModel;

    open spec fn view(&self) -> EventModel {
        EventModel {
            account_id: opt_text(self.account_id),
            predecessor_id: opt_text(self.predecessor_id),
            signer_id: opt_text(self.signer_id),
            tx_hash: opt_text(self.tx_hash),
            receipt_id: opt_text(self.receipt_id),
            block_height: match self.block_height {
                Some(h) => Some(h as nat),
                None => None,
            },
            status: opt_text(self.status),
            payload: self.payload@,
        }
    }
}

/// The method that a function-call event names; no other kind has one.
pub open spec fn method_of(payload: PayloadModel) -> Option<Seq<char>> {
    match payload {
        PayloadModel::FunctionCall { method_name } => Some(method_name),
        _ => None,
    }
}

/// The placeholder entry of one log field: its name, and its text.
pub open spec fn log_entry(f: FieldModel) -> FieldEntry {
    (f.name, Some(f.text))
}

/// The placeholders that an event offers to a template.
///
/// A log event offers each top-level field of its object under the field's
/// own name. Every other event offers the seven recognized names, each with
/// the event's value or, where the event has none, as absent.
pub open spec fn event_entries(e: EventModel) -> Seq<FieldEntry> {
    match e.payload {
        PayloadModel::LogEvent { fields } => fields.map_values(|f: FieldModel| log_entry(f)),
        _ => seq![
            ("account_id"@, e.account_id),
            ("method_name"@, method_of(e.payload)),
            ("predecessor_id"@, e.predecessor_id),
            ("signer_id"@, e.signer_id),
            (
                "block_height"@,
                match e.block_height {
                    Some(h) => Some(decimal_digits(h)),
                    None => None,
                },
            ),
            ("tx_hash"@, e.tx_hash),
            ("receipt_id"@, e.receipt_id),
        ],
    }
}

/// The first field called `name`.
pub open spec fn find_field(fields: Seq<FieldModel>, name: Seq<char>) -> Option<FieldModel>
    decreases fields.len(),
{
    if fields.len() == 0 {
        None
    } else if fields[0].name == name {
        Some(fields[0])
    } else {
        find_field(fields.drop_first(), name)
    }
}

/// The text value of the first field called `name`, if that field is a JSON
/// string.
pub open spec fn text_field(fields: Seq<FieldModel>, name: Seq<char>) -> Option<Seq<char>> {
    match find_field(fields, name) {
        Some(f) => if f.is_text {
            Some(f.text)
        } else {
            None
        },
        None => None,
    }
}

/// The compact JSON text of the first field called `name`, if that field is
/// not a JSON string.
pub open spec fn json_field(fields: Seq<FieldModel>, name: Seq<char>) -> Option<Seq<char>> {
    match find_field(fields, name) {
        Some(f) => if f.is_text {
            None
        } else {
            Some(f.text)
        },
        None => None,
    }
}

/// The normalized event that a decoded log object stands for: the account
/// under `account_id`, the transaction under `transaction_id`, the receipt
/// under `receipt_id`, each taken only where it is a JSON string.
pub open spec fn log_event_model(fields: Seq<FieldModel>) -> EventModel {
    EventModel {
        account_id: text_field(fields, "account_id"@),
        predecessor_id: None,
        signer_id: None,
        tx_hash: text_field(fields, "transaction_id"@),
        receipt_id: text_field(fields, "receipt_id"@),
        block_height: None,
        status: None,
        payload: PayloadModel::LogEvent { fields },
    }
}

/// A copy of an optional string.
pub fn copy_opt(o: &Option<String>) -> (r: Option<String>)
    ensures
        opt_text(r) == opt_text(*o),
{
    match o {
        Some(s) => Some(s.clone()),
        None => None,
    }
}

/// A copy of one field.
pub fn copy_field(field: &EventField) -> (r: EventField)
    ensures
        r@ == field@,
{
    EventField {
        name: field.name.clone(),
        value: match &field.value {
            FieldValue::Text(s) => FieldValue::Text(s.clone()),
            FieldValue::Json(s) => FieldValue::Json(s.clone()),
        },
    }
}

/// A copy of a list of fields.
pub fn copy_fields(fields: &Vec<EventField>) -> (r: Vec<EventField>)
    ensures
        fields_view(r@) == fields_view(fields@),
{
    let mut out: Vec<EventField> = Vec::new();
    let mut i: usize = 0;
    while i < fields.len()
        invariant
            i <= fields.len(),
            out.len() == i,
            forall|k: int| 0 <= k < i ==> (#[trigger] out@[k])@ == fields@[k]@,
        decreases fields.len() - i,
    {
        out.push(copy_field(&fields[i]));
        i = i + 1;
    }
    assert(fields_view(out@) =~= fields_view(fields@));
    out
}

/// Looks up the first field called `name`.
pub fn find_event_field(fields: &Vec<EventField>, name: &str) -> (r: Option<usize>)
    ensures
        r is None <==> find_field(fields_view(fields@), name@) is None,
        r matches Some(i) ==> i < fields.len() && find_field(fields_view(fields@), name@) == Some(
            fields[i as int]@,
        ),
{
    let ghost all = fields_view(fields@);
    let mut i: usize = 0;
    assert(all.subrange(0, fields.len() as int) =~= all);
    while i < fields.len()
        invariant
            i <= fields.len(),
            all == fields_view(fields@),
            all.len() == fields.len(),
            find_field(all, name@) == find_field(
                all.subrange(i as int, fields.len() as int),
                name@,
            ),
        decreases fields.len() - i,
    {
        let ghost tail = all.subrange(i as int, fields.len() as int);
        assert(tail.drop_first() =~= all.subrange(i + 1, fields.len() as int));
        assert(tail[0] == fields@[i as int]@);
        if same_text(fields[i].name.as_str(), name) {
            return Some(i);
        }
        i = i + 1;
    }
    assert(all.subrange(fields.len() as int, fields.len() as int) =~= Seq::empty());
    None
}

/// Looks up the text value of the first field called `name`.
pub fn find_text_field(fields: &Vec<EventField>, name: &str) -> (r: Option<String>)
    ensures
        opt_text(r) == text_field(fields_view(fields@), name@),
{
    match find_event_field(fields, name) {
        Some(i) => match &fields[i].value {
            FieldValue::Text(s) => Some(s.clone()),
            FieldValue::Json(_) => None,
        },
        None => None,
    }
}

/// Looks up the compact JSON text of the first field called `name`, where
/// that field is not a JSON string.
pub fn find_json_field(fields: &Vec<EventField>, name: &str) -> (r: Option<String>)
    ensures
        opt_text(r) == json_field(fields_view(fields@), name@),
{
    match find_event_field(fields, name) {
        Some(i) => match &fields[i].value {
            FieldValue::Text(_) => None,
            FieldValue::Json(s) => Some(s.clone()),
        },
        None => None,
    }
}

impl IncomingEvent {
    /// Normalizes a decoded log object.
    pub fn from_log_fields(fields: Vec<EventField>) -> (e: IncomingEvent)
        ensures
            e@ == log_event_model(fields_view(fields@)),
    {
        let account_id = find_text_field(&fields, "account_id");
        let tx_hash = find_text_field(&fields, "transaction_id");
        let receipt_id = find_text_field(&fields, "receipt_id");
        IncomingEvent {
            account_id,
            predecessor_id: None,
            signer_id: None,
            tx_hash,
            receipt_id,
            block_height: None,
            status: None,
            payload: ActionPayload::LogEvent { fields },
        }
    }

    /// A copy of this event.
    pub fn copy(&self) -> (r: IncomingEvent)
        ensures
            r@ == self@,
    {
        IncomingEvent {
            account_id: copy_opt(&self.account_id),
            predecessor_id: copy_opt(&self.predecessor_id),
            signer_id: copy_opt(&self.signer_id),
            tx_hash: copy_opt(&self.tx_hash),
            receipt_id: copy_opt(&self.receipt_id),
            block_height: self.block_height,
            status: copy_opt(&self.status),
            payload: match &self.payload {
                ActionPayload::FunctionCall { method_name } => ActionPayload::FunctionCall {
                    method_name: method_name.clone(),
                },
                ActionPayload::Transfer => ActionPayload::Transfer,
                ActionPayload::DeployContract => ActionPayload::DeployContract,
                ActionPayload::KeyManagement => ActionPayload::KeyManagement,
                ActionPayload::AccountLifecycle => ActionPayload::AccountLifecycle,
                ActionPayload::Stake => ActionPayload::Stake,
                ActionPayload::LogEvent { fields } => ActionPayload::LogEvent {
                    fields: copy_fields(fields),
                },
                ActionPayload::Other => ActionPayload::Other,
            },
        }
    }

    /// The method name of a function-call event.
    pub fn method_name(&self) -> (r: Option<String>)
        ensures
            opt_text(r) == method_of(self@.payload),
    {
        match &self.payload {
            ActionPayload::FunctionCall { method_name } => Some(method_name.clone()),
            _ => None,
        }
    }

    /// The placeholders that this event offers to a template.
    pub fn template_fields(&self) -> (r: Vec<TemplateField>)
        ensures
            entries_of(r@) == event_entries(self@),
    {
        match &self.payload {
            ActionPayload::LogEvent { fields } => {
                let mut out: Vec<TemplateField> = Vec::new();
                let mut i: usize = 0;
                while i < fields.len()
                    invariant
                        i <= fields.len(),
                        out.len() == i,
                        forall|k: int|
                            0 <= k < i ==> (#[trigger] out@[k])@ == log_entry(fields@[k]@),
                    decreases fields.len() - i,
                {
                    let text = match &fields[i].value {
                        FieldValue::Text(s) => s.clone(),
                        FieldValue::Json(s) => s.clone(),
                    };
                    out.push(TemplateField { name: fields[i].name.clone(), value: Some(text) });
                    i = i + 1;
                }
                assert(entries_of(out@) =~= event_entries(self@));
                out
            },
            _ => {
                let mut out: Vec<TemplateField> = Vec::new();
                out.push(
                    TemplateField {
                        name: "account_id".to_string(),
                        value: copy_opt(&self.account_id),
                    },
                );
                out.push(
                    TemplateField { name: "method_name".to_string(), value: self.method_name() },
                );
                out.push(
                    TemplateField {
                        name: "predecessor_id".to_string(),
                        value: copy_opt(&self.predecessor_id),
                    },
                );
                out.push(
                    TemplateField {
                        name: "signer_id".to_string(),
                        value: copy_opt(&self.signer_id),
                    },
                );
                let height = match self.block_height {
                    Some(h) => Some(decimal_string(h)),
                    None => None,
                };
                out.push(TemplateField { name: "block_height".to_string(), value: height });
                out.push(
                    TemplateField { name: "tx_hash".to_string(), value: copy_opt(&self.tx_hash) },
                );
                out.push(
                    TemplateField {
                        name: "receipt_id".to_string(),
                        value: copy_opt(&self.receipt_id),
                    },
                );
                assert(entries_of(out@) =~= event_entries(self@));
                out
            },
        }
    }
}

} // verus!
