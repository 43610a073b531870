use near_pagerduty_alerts::decode::{
    action_from, actions_text, decode_action, decode_batch, decode_fields, decode_payload,
    decode_payload_named, decode_tagged_body, field_from, kind_entry_of, payload_from,
    payload_from_action, DecodeError, UpstreamShape,
};
use near_pagerduty_alerts::event::{ActionPayload, EventField, FieldValue, IncomingEvent};

fn named(name: &str, value: FieldValue) -> EventField {
    EventField { name: name.to_string(), value }
}

fn as_text(s: &str) -> FieldValue {
    FieldValue::Text(s.to_string())
}

fn as_json(s: &str) -> FieldValue {
    FieldValue::Json(s.to_string())
}

#[test]
fn fields_of_an_object() {
    let fields = decode_fields("{ \"b\": \"two\\n\", \"a\": 1, \"c\": {\"x\": [1, 2]}, \"d\": null }");
    assert_eq!(
        fields,
        vec![
            named("a", as_json("1")),
            named("b", as_text("two\n")),
            named("c", as_json("{\"x\":[1,2]}")),
            named("d", as_json("null")),
        ]
    );
}

#[test]
fn fields_of_what_is_no_object() {
    assert_eq!(decode_fields("[1,2]"), vec![]);
    assert_eq!(decode_fields("\"text\""), vec![]);
    assert_eq!(decode_fields("{broken"), vec![]);
    assert_eq!(decode_fields(""), vec![]);
    assert_eq!(decode_fields("{}"), vec![]);
}

#[test]
fn event_feed_batch_in_wire_order() {
    let message = "[{\"account_id\":\"vote.dao\",\"transaction_id\":\"t1\",\"event_event\":\"add_vote\"},\
                   {\"account_id\":\"vote.dao\",\"receipt_id\":\"r2\",\"block_height\":7}]";
    let events = decode_batch(UpstreamShape::EventFeed, message).unwrap();
    assert_eq!(events.len(), 2);
    assert_eq!(
        events[0],
        IncomingEvent {
            account_id: Some("vote.dao".to_string()),
            predecessor_id: None,
            signer_id: None,
            tx_hash: Some("t1".to_string()),
            receipt_id: None,
            block_height: None,
            status: None,
            payload: ActionPayload::LogEvent {
                fields: vec![
                    named("account_id", as_text("vote.dao")),
                    named("event_event", as_text("add_vote")),
                    named("transaction_id", as_text("t1")),
                ],
            },
        }
    );
    assert_eq!(events[1].tx_hash, None);
    assert_eq!(events[1].receipt_id.as_deref(), Some("r2"));
    assert_eq!(
        events[1].payload,
        ActionPayload::LogEvent {
            fields: vec![
                named("account_id", as_text("vote.dao")),
                named("block_height", as_json("7")),
                named("receipt_id", as_text("r2")),
            ],
        }
    );
}

#[test]
fn event_feed_batch_may_be_empty() {
    assert_eq!(decode_batch(UpstreamShape::EventFeed, "[]"), Ok(vec![]));
}

#[test]
fn event_feed_element_that_is_no_object_has_no_fields() {
    let events = decode_batch(UpstreamShape::EventFeed, "[5, \"x\"]").unwrap();
    assert_eq!(events.len(), 2);
    for e in events {
        assert_eq!(e.account_id, None);
        assert_eq!(e.payload, ActionPayload::LogEvent { fields: vec![] });
    }
}

#[test]
fn malformed_event_feed_message_is_refused() {
    assert_eq!(decode_batch(UpstreamShape::EventFeed, "not json"), Err(DecodeError::NotAList));
    assert_eq!(decode_batch(UpstreamShape::EventFeed, "{\"a\":1}"), Err(DecodeError::NotAList));
    assert_eq!(decode_batch(UpstreamShape::EventFeed, "[1,2"), Err(DecodeError::NotAList));
    assert_eq!(decode_batch(UpstreamShape::EventFeed, ""), Err(DecodeError::NotAList));
}

#[test]
fn account_activity_envelope() {
    let message = "{\"actions\":[\
        {\"account_id\":\"venear.near\",\"predecessor_id\":\"alice.near\",\"tx_hash\":\"abc\",\
         \"block_height\":123,\"status\":\"SUCCESS\",\
         \"action\":{\"FunctionCall\":{\"method_name\":\"pause\",\"gas\":5}}},\
        {\"account_id\":\"venear.near\",\"signer_id\":\"bob.near\",\"receipt_id\":\"r7\",\
         \"action\":\"Transfer\"}],\
        \"note\":\"x\"}";
    let events = decode_batch(UpstreamShape::AccountActivity, message).unwrap();
    assert_eq!(
        events,
        vec![
            IncomingEvent {
                account_id: Some("venear.near".to_string()),
                predecessor_id: Some("alice.near".to_string()),
                signer_id: None,
                tx_hash: Some("abc".to_string()),
                receipt_id: None,
                block_height: Some(123),
                status: Some("SUCCESS".to_string()),
                payload: ActionPayload::FunctionCall { method_name: "pause".to_string() },
            },
            IncomingEvent {
                account_id: Some("venear.near".to_string()),
                predecessor_id: None,
                signer_id: Some("bob.near".to_string()),
                tx_hash: None,
                receipt_id: Some("r7".to_string()),
                block_height: None,
                status: None,
                payload: ActionPayload::Transfer,
            },
        ]
    );
}

#[test]
fn malformed_envelope_is_refused() {
    let shape = UpstreamShape::AccountActivity;
    assert_eq!(decode_batch(shape, "[]"), Err(DecodeError::NotAnEnvelope));
    assert_eq!(decode_batch(shape, "oops"), Err(DecodeError::NotAnEnvelope));
    assert_eq!(decode_batch(shape, "{\"other\":[]}"), Err(DecodeError::NoActions));
    assert_eq!(decode_batch(shape, "{\"actions\":\"[]\"}"), Err(DecodeError::NoActions));
    assert_eq!(decode_batch(shape, "{\"actions\":{}}"), Err(DecodeError::NotAList));
    assert_eq!(decode_batch(shape, "{\"actions\":[]}"), Ok(vec![]));
}

#[test]
fn action_kinds_by_name() {
    assert_eq!(decode_payload_named("Transfer", None), ActionPayload::Transfer);
    assert_eq!(decode_payload_named("Transfer", Some("{\"deposit\":\"1\"}")), ActionPayload::Transfer);
    assert_eq!(decode_payload_named("DeployContract", None), ActionPayload::DeployContract);
    assert_eq!(decode_payload_named("AddKey", None), ActionPayload::KeyManagement);
    assert_eq!(decode_payload_named("DeleteKey", None), ActionPayload::KeyManagement);
    assert_eq!(decode_payload_named("CreateAccount", None), ActionPayload::AccountLifecycle);
    assert_eq!(decode_payload_named("DeleteAccount", None), ActionPayload::AccountLifecycle);
    assert_eq!(decode_payload_named("Stake", None), ActionPayload::Stake);
    assert_eq!(decode_payload_named("Delegate", None), ActionPayload::Other);
    assert_eq!(decode_payload_named("transfer", None), ActionPayload::Other);
    assert_eq!(
        decode_payload_named("FunctionCall", Some("{\"method_name\":\"pause\"}")),
        ActionPayload::FunctionCall { method_name: "pause".to_string() }
    );
    assert_eq!(decode_payload_named("FunctionCall", Some("{\"method_name\":7}")), ActionPayload::Other);
    assert_eq!(decode_payload_named("FunctionCall", Some("{}")), ActionPayload::Other);
    assert_eq!(decode_payload_named("FunctionCall", None), ActionPayload::Other);
}

#[test]
fn action_without_usable_fields() {
    let event = decode_action(&vec![
        named("account_id", as_json("5")),
        named("block_height", as_text("12")),
        named("action", as_json("[]")),
    ]);
    assert_eq!(
        event,
        IncomingEvent {
            account_id: None,
            predecessor_id: None,
            signer_id: None,
            tx_hash: None,
            receipt_id: None,
            block_height: None,
            status: None,
            payload: ActionPayload::Other,
        }
    );
}

#[test]
fn block_height_must_be_an_unsigned_whole_number() {
    let height = |raw: &str| decode_action(&vec![named("block_height", as_json(raw))]).block_height;
    assert_eq!(height("0"), Some(0));
    assert_eq!(height("18446744073709551615"), Some(u64::MAX));
    assert_eq!(height("18446744073709551616"), None);
    assert_eq!(height("-1"), None);
    assert_eq!(height("1.5"), None);
    assert_eq!(height("null"), None);
}

#[test]
fn action_object_without_kind() {
    let event = decode_action(&vec![named("action", as_json("{}"))]);
    assert_eq!(event.payload, ActionPayload::Other);
    let event = decode_action(&vec![]);
    assert_eq!(event.payload, ActionPayload::Other);
}

#[test]
fn field_from_its_parsed_value() {
    assert_eq!(
        field_from("a".to_string(), "\"x\\ny\"".to_string(), Some("x\ny".to_string())),
        named("a", as_text("x\ny"))
    );
    assert_eq!(field_from("a".to_string(), "5".to_string(), None), named("a", as_json("5")));
    assert_eq!(
        field_from("".to_string(), "\"\"".to_string(), Some("".to_string())),
        named("", as_text(""))
    );
}

#[test]
fn payload_from_kind_and_parsed_body() {
    let body = vec![named("gas", as_json("5")), named("method_name", as_text("pause"))];
    assert_eq!(
        payload_from("FunctionCall", Some(&body)),
        ActionPayload::FunctionCall { method_name: "pause".to_string() }
    );
    assert_eq!(payload_from("FunctionCall", None), ActionPayload::Other);
    assert_eq!(payload_from("FunctionCall", Some(&vec![])), ActionPayload::Other);
    assert_eq!(
        payload_from("FunctionCall", Some(&vec![named("method_name", as_json("7"))])),
        ActionPayload::Other
    );
    assert_eq!(payload_from("Transfer", Some(&body)), ActionPayload::Transfer);
    assert_eq!(payload_from("DeployContract", None), ActionPayload::DeployContract);
    assert_eq!(payload_from("AddKey", None), ActionPayload::KeyManagement);
    assert_eq!(payload_from("DeleteKey", None), ActionPayload::KeyManagement);
    assert_eq!(payload_from("CreateAccount", None), ActionPayload::AccountLifecycle);
    assert_eq!(payload_from("DeleteAccount", None), ActionPayload::AccountLifecycle);
    assert_eq!(payload_from("Stake", None), ActionPayload::Stake);
    assert_eq!(payload_from("", None), ActionPayload::Other);
    assert_eq!(payload_from("functioncall", Some(&body)), ActionPayload::Other);
}

#[test]
fn kind_entry_is_the_first_entry() {
    let pair = |a: &str, b: &str| (a.to_string(), b.to_string());
    assert_eq!(kind_entry_of(&vec![]), None);
    assert_eq!(kind_entry_of(&vec![pair("Transfer", "{}")]), Some(pair("Transfer", "{}")));
    assert_eq!(
        kind_entry_of(&vec![pair("A", "1"), pair("B", "2")]),
        Some(pair("A", "1"))
    );
}

#[test]
fn tagged_body_of_an_action_object() {
    assert_eq!(
        decode_tagged_body("{\"FunctionCall\":{\"method_name\":\"pause\"}}"),
        Some(("FunctionCall".to_string(), vec![named("method_name", as_text("pause"))]))
    );
    assert_eq!(decode_tagged_body("{\"Transfer\":7}"), Some(("Transfer".to_string(), vec![])));
    // an object is walked by key
    assert_eq!(
        decode_tagged_body("{\"Transfer\":{},\"AddKey\":{}}"),
        Some(("AddKey".to_string(), vec![]))
    );
    assert_eq!(decode_tagged_body("{}"), None);
    assert_eq!(decode_tagged_body("[]"), None);
    assert_eq!(decode_tagged_body("nope"), None);
}

#[test]
fn payload_from_the_action_field() {
    let call_body = vec![named("method_name", as_text("pause"))];
    assert_eq!(payload_from_action(None, None), ActionPayload::Other);
    assert_eq!(
        payload_from_action(None, Some(("Transfer".to_string(), vec![]))),
        ActionPayload::Other
    );
    assert_eq!(
        payload_from_action(Some(&named("action", as_text("Stake"))), None),
        ActionPayload::Stake
    );
    assert_eq!(
        payload_from_action(
            Some(&named("action", as_text("Stake"))),
            Some(("Transfer".to_string(), vec![]))
        ),
        ActionPayload::Stake
    );
    assert_eq!(
        payload_from_action(Some(&named("action", as_text("FunctionCall"))), None),
        ActionPayload::Other
    );
    assert_eq!(
        payload_from_action(
            Some(&named("action", as_json("{}"))),
            Some(("FunctionCall".to_string(), call_body))
        ),
        ActionPayload::FunctionCall { method_name: "pause".to_string() }
    );
    assert_eq!(
        payload_from_action(Some(&named("action", as_json("[]"))), None),
        ActionPayload::Other
    );
}

#[test]
fn payload_of_an_action_object() {
    let fields = decode_fields(
        "{\"account_id\":\"a.near\",\"action\":{\"FunctionCall\":{\"method_name\":\"pause\"}}}",
    );
    assert_eq!(
        decode_payload(&fields),
        ActionPayload::FunctionCall { method_name: "pause".to_string() }
    );
    assert_eq!(decode_payload(&decode_fields("{\"action\":\"DeleteKey\"}")), ActionPayload::KeyManagement);
}

#[test]
fn action_from_fields_height_and_payload() {
    let fields = vec![
        named("account_id", as_text("a.near")),
        named("predecessor_id", as_text("p.near")),
        named("signer_id", as_text("s.near")),
        named("tx_hash", as_text("tx1")),
        named("receipt_id", as_text("r1")),
        named("status", as_text("SUCCESS")),
        named("block_height", as_json("1")),
        named("action", as_text("Transfer")),
    ];
    assert_eq!(
        action_from(&fields, Some(77), ActionPayload::Stake),
        IncomingEvent {
            account_id: Some("a.near".to_string()),
            predecessor_id: Some("p.near".to_string()),
            signer_id: Some("s.near".to_string()),
            tx_hash: Some("tx1".to_string()),
            receipt_id: Some("r1".to_string()),
            block_height: Some(77),
            status: Some("SUCCESS".to_string()),
            payload: ActionPayload::Stake,
        }
    );
    assert_eq!(
        action_from(&vec![named("tx_hash", as_json("5"))], None, ActionPayload::Other),
        IncomingEvent {
            account_id: None,
            predecessor_id: None,
            signer_id: None,
            tx_hash: None,
            receipt_id: None,
            block_height: None,
            status: None,
            payload: ActionPayload::Other,
        }
    );
}

#[test]
fn batch_text_of_an_envelope() {
    assert_eq!(
        actions_text(&vec![named("note", as_text("x")), named("actions", as_json("[1]"))]),
        Ok("[1]".to_string())
    );
    assert_eq!(actions_text(&vec![named("actions", as_text("[1]"))]), Err(DecodeError::NoActions));
    assert_eq!(actions_text(&vec![]), Err(DecodeError::NoActions));
    assert_eq!(
        actions_text(&vec![named("actions", as_text("x")), named("actions", as_json("[]"))]),
        Err(DecodeError::NoActions)
    );
}

#[test]
fn copies_hold_the_same_values() {
    let fields = vec![named("a", as_text("1")), named("b", as_json("1"))];
    assert_eq!(near_pagerduty_alerts::event::copy_fields(&fields), fields);
    let event = IncomingEvent::from_log_fields(fields);
    assert_eq!(event.copy(), event);
    let action = action_from(&vec![named("account_id", as_text("a"))], Some(3), ActionPayload::Stake);
    assert_eq!(action.copy(), action);
}
