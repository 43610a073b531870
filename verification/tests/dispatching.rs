use near_pagerduty_alerts::dispatch::{
    check_response, current_timestamp, timestamp_at, AlertDetails, DispatchError, EventAction,
    PagerDutyLink, PagerDutyResponse, EVENTS_URL,
};
use near_pagerduty_alerts::PagerDutyClient;
use near_pagerduty_alerts::event::{ActionPayload, EventField, FieldValue, IncomingEvent};

fn reply(status: &str, message: &str, dedup_key: Option<&str>) -> PagerDutyResponse {
    PagerDutyResponse {
        status: status.to_string(),
        message: message.to_string(),
        dedup_key: dedup_key.map(|k| k.to_string()),
    }
}

fn some_details() -> AlertDetails {
    AlertDetails {
        subscription_name: "watch".to_string(),
        event_type: Some("log_nep297".to_string()),
        event: IncomingEvent {
            account_id: Some("a.near".to_string()),
            predecessor_id: None,
            signer_id: None,
            tx_hash: None,
            receipt_id: None,
            block_height: None,
            status: None,
            payload: ActionPayload::LogEvent {
                fields: vec![
                    EventField {
                        name: "account_id".to_string(),
                        value: FieldValue::Text("a.near".to_string()),
                    },
                    EventField {
                        name: "amount".to_string(),
                        value: FieldValue::Json("5".to_string()),
                    },
                ],
            },
        },
    }
}

#[test]
fn trigger_request_in_full() {
    let client = PagerDutyClient::new("route-1".to_string());
    let event = client.trigger_at(
        "Something happened",
        "near:a.near",
        "critical",
        Some("abc".to_string()),
        Some(some_details()),
        Some(("https://nearblocks.io/txns/abc", "View Transaction")),
        "2024-05-01T10:00:00+00:00".to_string(),
    );
    assert_eq!(event.routing_key, "route-1");
    assert_eq!(event.event_action, "trigger");
    assert_eq!(event.dedup_key.as_deref(), Some("abc"));
    assert_eq!(event.payload.summary, "Something happened");
    assert_eq!(event.payload.source, "near:a.near");
    assert_eq!(event.payload.severity, "critical");
    assert_eq!(event.payload.timestamp, "2024-05-01T10:00:00+00:00");
    assert_eq!(event.payload.custom_details, Some(some_details()));
    assert_eq!(
        event.links,
        Some(vec![PagerDutyLink {
            href: "https://nearblocks.io/txns/abc".to_string(),
            text: "View Transaction".to_string(),
        }])
    );
    assert_eq!(event.client, "NEAR Blockchain Monitor");
    assert_eq!(event.client_url, "https://explorer.near.org");
}

#[test]
fn trigger_request_without_optional_parts() {
    let client = PagerDutyClient::new("route-1".to_string());
    let event = client.trigger_at("s", "src", "info", None, None, None, "t".to_string());
    assert_eq!(event.dedup_key, None);
    assert_eq!(event.payload.custom_details, None);
    assert_eq!(event.links, None);
}

#[test]
fn trigger_cuts_the_summary() {
    let client = PagerDutyClient::new("k".to_string());
    let long = "ü".repeat(1025);
    let event = client.trigger_at(&long, "src", "warning", None, None, None, "t".to_string());
    assert_eq!(event.payload.summary, "ü".repeat(1024));
    let exact = "y".repeat(1024);
    let event = client.trigger_at(&exact, "src", "warning", None, None, None, "t".to_string());
    assert_eq!(event.payload.summary, exact);
}

#[test]
fn trigger_stamps_the_current_time() {
    let client = PagerDutyClient::new("k".to_string());
    let before = chrono::Utc::now();
    let event = client
        .trigger("s", "src", "warning", Some("d".to_string()), None, None)
        .expect("the clock can be read");
    let after = chrono::Utc::now();
    let stamp = chrono::DateTime::parse_from_rfc3339(&event.payload.timestamp)
        .expect("an RFC 3339 timestamp");
    assert!(before <= stamp && stamp <= after);
    assert_eq!(event.routing_key, "k");
    assert_eq!(event.event_action, "trigger");
    assert_eq!(event.payload.summary, "s");
    assert_eq!(event.dedup_key.as_deref(), Some("d"));
}

#[test]
fn timestamp_is_laid_out_as_rfc_3339_in_utc() {
    let client = PagerDutyClient::new("k".to_string());
    let event = client.trigger("s", "src", "warning", None, None, None).unwrap();
    let t: Vec<char> = event.payload.timestamp.chars().collect();
    let year_len = t.iter().position(|c| *c == '-').unwrap();
    assert_eq!(year_len, 4);
    let fraction_len = t.len() - year_len - 15 - 6;
    assert!([0, 4, 7, 10].contains(&fraction_len));
    assert_eq!(t[year_len], '-');
    assert_eq!(t[year_len + 3], '-');
    assert_eq!(t[year_len + 6], 'T');
    assert_eq!(t[year_len + 9], ':');
    assert_eq!(t[year_len + 12], ':');
    for at in [1, 2, 4, 5, 7, 8, 10, 11, 13, 14] {
        assert!(t[year_len + at].is_ascii_digit());
    }
    if fraction_len > 0 {
        assert_eq!(t[year_len + 15], '.');
    }
    assert_eq!(t[t.len() - 6..].iter().collect::<String>(), "+00:00");
}

#[test]
fn trigger_is_trigger_at_for_its_timestamp() {
    let client = PagerDutyClient::new("k".to_string());
    let stamped = client
        .trigger(
            "s",
            "src",
            "error",
            Some("d".to_string()),
            Some(some_details()),
            Some(("https://nearblocks.io/address/a.near", "View Contract")),
        )
        .unwrap();
    let again = client.trigger_at(
        "s",
        "src",
        "error",
        Some("d".to_string()),
        Some(some_details()),
        Some(("https://nearblocks.io/address/a.near", "View Contract")),
        stamped.payload.timestamp.clone(),
    );
    assert_eq!(stamped, again);
}

#[test]
fn routing_key_is_kept() {
    assert_eq!(PagerDutyClient::new("route-9".to_string()).routing_key(), "route-9");
}

#[test]
fn acknowledge_and_resolve_requests() {
    let client = PagerDutyClient::new("route-1".to_string());
    let ack = client.acknowledge("abc").unwrap();
    assert_eq!(ack.routing_key, "route-1");
    assert_eq!(ack.event_action, EventAction::Acknowledge);
    assert_eq!(ack.dedup_key, "abc");
    let resolved = client.resolve("abc").unwrap();
    assert_eq!(resolved.routing_key, "route-1");
    assert_eq!(resolved.event_action, EventAction::Resolve);
    assert_eq!(resolved.dedup_key, "abc");
}

#[test]
fn lifecycle_calls_need_a_key() {
    let client = PagerDutyClient::new("route-1".to_string());
    assert_eq!(client.acknowledge(""), Err(DispatchError::EmptyDedupKey));
    assert_eq!(client.resolve(""), Err(DispatchError::EmptyDedupKey));
}

#[test]
fn action_names() {
    assert_eq!(EventAction::Trigger.as_string(), "trigger");
    assert_eq!(EventAction::Acknowledge.as_string(), "acknowledge");
    assert_eq!(EventAction::Resolve.as_string(), "resolve");
}

#[test]
fn successful_reply_is_handed_on() {
    let r = reply("success", "Event processed", Some("abc"));
    assert_eq!(check_response(r.clone()), Ok(r));
}

#[test]
fn other_reply_is_an_error() {
    assert_eq!(
        check_response(reply("invalid event", "routing key is wrong", None)),
        Err(DispatchError::Rejected {
            status: "invalid event".to_string(),
            message: "routing key is wrong".to_string(),
        })
    );
    assert!(check_response(reply("Success", "", None)).is_err());
    assert!(check_response(reply("", "", None)).is_err());
}

#[test]
fn resolve_after_trigger_is_accepted() {
    let client = PagerDutyClient::new("route-1".to_string());
    let sent = client.trigger("s", "src", "warning", Some("abc".to_string()), None, None).unwrap();
    assert_eq!(sent.dedup_key.as_deref(), Some("abc"));
    let answer = check_response(reply("success", "Event processed", Some("abc"))).unwrap();
    assert_eq!(answer.status, "success");
    let key = answer.dedup_key.unwrap();
    assert_eq!(key, "abc");
    let first = client.resolve(&key).unwrap();
    assert_eq!(first.event_action, EventAction::Resolve);
    assert_eq!(first.dedup_key, "abc");
    // the client keeps no record of incidents: resolving again is the same request
    assert_eq!(client.resolve(&key), Ok(first));
}

#[test]
fn backend_address() {
    assert_eq!(EVENTS_URL, "https://events.pagerduty.com/v2/enqueue");
}

#[test]
fn timestamp_of_a_clock_reading() {
    assert_eq!(timestamp_at(0, 0), Ok("1970-01-01T00:00:00+00:00".to_string()));
    assert_eq!(timestamp_at(1431648000, 0), Ok("2015-05-15T00:00:00+00:00".to_string()));
    assert_eq!(
        timestamp_at(1431648000, 500_000_000),
        Ok("2015-05-15T00:00:00.500+00:00".to_string())
    );
    assert_eq!(timestamp_at(1431648000, 1_000), Ok("2015-05-15T00:00:00.000001+00:00".to_string()));
    assert_eq!(timestamp_at(1431648000, 1), Ok("2015-05-15T00:00:00.000000001+00:00".to_string()));
    assert_eq!(timestamp_at(86_399, 999_999_999), Ok("1970-01-01T23:59:59.999999999+00:00".to_string()));
    assert_eq!(timestamp_at(253_402_300_800, 0), Ok("+10000-01-01T00:00:00+00:00".to_string()));
}

#[test]
fn reading_beyond_the_calendar_has_no_timestamp() {
    assert_eq!(timestamp_at(u64::MAX, 0), Err(DispatchError::ClockUnreadable));
    assert_eq!(timestamp_at(i64::MAX as u64, 0), Err(DispatchError::ClockUnreadable));
    assert_eq!(timestamp_at(i64::MAX as u64 + 1, 0), Err(DispatchError::ClockUnreadable));
    assert_eq!(timestamp_at(0, 2_000_000_000), Err(DispatchError::ClockUnreadable));
}

#[test]
fn the_clock_gives_a_timestamp() {
    let before = chrono::Utc::now();
    let text = current_timestamp().expect("the clock can be read");
    let after = chrono::Utc::now();
    let stamp = chrono::DateTime::parse_from_rfc3339(&text).expect("an RFC 3339 timestamp");
    assert!(before <= stamp && stamp <= after);
    assert!(text.ends_with("+00:00"));
}
