use near_pagerduty_alerts::event::{ActionPayload, EventField, FieldValue, IncomingEvent};
use near_pagerduty_alerts::format::{
    format_dedup_key, format_source, format_summary, get_explorer_link, get_ws_url, SUMMARY_LIMIT,
};
use near_pagerduty_alerts::subscription::{EventSubscription, Severity, SourceSelector};
use near_pagerduty_alerts::template::{render_template, TemplateField};
use near_pagerduty_alerts::text::{decimal_string, truncate_chars};

fn field(name: &str, value: Option<&str>) -> TemplateField {
    TemplateField { name: name.to_string(), value: value.map(|v| v.to_string()) }
}

fn pause_event() -> IncomingEvent {
    IncomingEvent {
        account_id: Some("venear.near".to_string()),
        predecessor_id: Some("alice.near".to_string()),
        signer_id: None,
        tx_hash: Some("abc".to_string()),
        receipt_id: None,
        block_height: Some(123456789),
        status: None,
        payload: ActionPayload::FunctionCall { method_name: "pause".to_string() },
    }
}

fn pause_subscription() -> EventSubscription {
    EventSubscription {
        name: "veNEAR paused".to_string(),
        source: SourceSelector::AccountActivity {
            account_id: "venear.near".to_string(),
            method_name: Some("pause".to_string()),
        },
        severity: Severity::Critical,
        summary_template: None,
        testnet: false,
        dedup_key_template: None,
    }
}

fn log_event(fields: Vec<(&str, FieldValue)>) -> IncomingEvent {
    IncomingEvent::from_log_fields(
        fields
            .into_iter()
            .map(|(name, value)| EventField { name: name.to_string(), value })
            .collect(),
    )
}

fn text(s: &str) -> FieldValue {
    FieldValue::Text(s.to_string())
}

#[test]
fn known_placeholders_are_replaced() {
    let fields = vec![field("account_id", Some("venear.near")), field("method_name", Some("pause"))];
    assert_eq!(
        render_template("{method_name} on {account_id}, again {method_name}!", &fields),
        "pause on venear.near, again pause!"
    );
}

#[test]
fn absent_field_renders_as_unknown() {
    let fields = vec![field("predecessor_id", None)];
    assert_eq!(render_template("Paused by {predecessor_id}", &fields), "Paused by unknown");
}

#[test]
fn unknown_placeholder_is_left_verbatim() {
    let fields = vec![field("account_id", Some("a.near"))];
    assert_eq!(render_template("{nope} {account_id} {}", &fields), "{nope} a.near {}");
}

#[test]
fn template_without_placeholders_is_unchanged() {
    assert_eq!(render_template("", &vec![]), "");
    assert_eq!(render_template("plain } text", &vec![field("a", Some("b"))]), "plain } text");
}

#[test]
fn substitution_is_single_pass() {
    let fields = vec![field("a", Some("{b}")), field("b", Some("deep"))];
    assert_eq!(render_template("{a} {b}", &fields), "{b} deep");
}

#[test]
fn braces_that_close_nothing_are_copied() {
    let fields = vec![field("a", Some("x"))];
    assert_eq!(render_template("{a", &fields), "{a");
    assert_eq!(render_template("{{a}", &fields), "{x");
    assert_eq!(render_template("{a}}", &fields), "x}");
    assert_eq!(render_template("{ a}{a }", &fields), "{ a}{a }");
    assert_eq!(render_template("{b{a}", &fields), "{bx");
}

#[test]
fn first_entry_decides_a_repeated_name() {
    let fields = vec![field("a", Some("first")), field("a", Some("second"))];
    assert_eq!(render_template("{a}", &fields), "first");
}

#[test]
fn non_ascii_text_is_kept() {
    let fields = vec![field("who", Some("Zoë ☃"))];
    assert_eq!(render_template("héllo {who} ✓", &fields), "héllo Zoë ☃ ✓");
}

#[test]
fn decimal_rendering_of_numbers() {
    assert_eq!(decimal_string(0), "0");
    assert_eq!(decimal_string(7), "7");
    assert_eq!(decimal_string(10), "10");
    assert_eq!(decimal_string(1234567), "1234567");
    assert_eq!(decimal_string(u64::MAX), "18446744073709551615");
}

#[test]
fn truncation_counts_scalar_values() {
    assert_eq!(truncate_chars("héllo", 2), "hé");
    assert_eq!(truncate_chars("héllo", 5), "héllo");
    assert_eq!(truncate_chars("héllo", 9), "héllo");
    assert_eq!(truncate_chars("héllo", 0), "");
}

#[test]
fn default_summary_names_account_and_method() {
    assert_eq!(
        format_summary(&pause_event(), &pause_subscription()),
        "veNEAR paused: Action on venear.near calling pause"
    );
}

#[test]
fn default_summary_without_method() {
    let mut event = pause_event();
    event.payload = ActionPayload::Transfer;
    assert_eq!(
        format_summary(&event, &pause_subscription()),
        "veNEAR paused: Action on venear.near"
    );
}

#[test]
fn default_summary_without_account() {
    let mut event = pause_event();
    event.account_id = None;
    event.payload = ActionPayload::Other;
    assert_eq!(format_summary(&event, &pause_subscription()), "veNEAR paused: Action on unknown");
}

#[test]
fn summary_template_with_all_recognized_placeholders() {
    let mut sub = pause_subscription();
    sub.summary_template = Some(
        "{account_id}|{method_name}|{predecessor_id}|{signer_id}|{block_height}|{tx_hash}|{receipt_id}|{other}"
            .to_string(),
    );
    assert_eq!(
        format_summary(&pause_event(), &sub),
        "venear.near|pause|alice.near|unknown|123456789|abc|unknown|{other}"
    );
}

#[test]
fn summary_template_with_absent_predecessor() {
    let mut event = pause_event();
    event.predecessor_id = None;
    let mut sub = pause_subscription();
    sub.summary_template = Some("Paused by {predecessor_id}".to_string());
    assert_eq!(format_summary(&event, &sub), "Paused by unknown");
}

#[test]
fn summary_is_cut_to_the_limit() {
    assert_eq!(SUMMARY_LIMIT, 1024);
    let mut sub = pause_subscription();
    sub.summary_template = Some("é".repeat(1500));
    let summary = format_summary(&pause_event(), &sub);
    assert_eq!(summary.chars().count(), 1024);
    assert_eq!(summary, "é".repeat(1024));
    sub.summary_template = Some("x".repeat(1024));
    assert_eq!(format_summary(&pause_event(), &sub), "x".repeat(1024));
    sub.summary_template = Some(format!("{}{{account_id}}", "x".repeat(1020)));
    assert_eq!(format_summary(&pause_event(), &sub), format!("{}vene", "x".repeat(1020)));
}

#[test]
fn long_default_summary_is_cut_too() {
    let mut sub = pause_subscription();
    sub.name = "n".repeat(2000);
    assert_eq!(format_summary(&pause_event(), &sub), "n".repeat(1024));
}

#[test]
fn default_dedup_key_prefers_transaction() {
    let mut event = pause_event();
    event.receipt_id = Some("rcpt".to_string());
    assert_eq!(format_dedup_key(&event, &pause_subscription()), Some("abc".to_string()));
}

#[test]
fn default_dedup_key_falls_back_to_receipt() {
    let mut event = pause_event();
    event.tx_hash = None;
    event.receipt_id = Some("rcpt".to_string());
    assert_eq!(format_dedup_key(&event, &pause_subscription()), Some("rcpt".to_string()));
}

#[test]
fn default_dedup_key_may_be_absent() {
    let mut event = pause_event();
    event.tx_hash = None;
    assert_eq!(format_dedup_key(&event, &pause_subscription()), None);
}

#[test]
fn dedup_key_template_is_rendered() {
    let mut sub = pause_subscription();
    sub.dedup_key_template = Some("pause-{tx_hash}-{receipt_id}".to_string());
    assert_eq!(format_dedup_key(&pause_event(), &sub), Some("pause-abc-unknown".to_string()));
}

#[test]
fn formatting_twice_gives_the_same_text() {
    let mut sub = pause_subscription();
    sub.summary_template = Some("{method_name} at {block_height} by {signer_id}".to_string());
    sub.dedup_key_template = Some("k-{tx_hash}".to_string());
    let event = pause_event();
    let first = (format_summary(&event, &sub), format_dedup_key(&event, &sub));
    let second = (format_summary(&event.clone(), &sub.clone()), format_dedup_key(&event, &sub));
    assert_eq!(first, second);
    assert_eq!(first.0.as_bytes(), second.0.as_bytes());
    assert_eq!(first.0, "pause at 123456789 by unknown");
    assert_eq!(first.1, Some("k-abc".to_string()));
}

#[test]
fn log_event_offers_its_own_fields() {
    let event = log_event(vec![
        ("account_id", text("vote.dao")),
        ("event_event", text("add_vote")),
        ("block_height", FieldValue::Json("42".to_string())),
        ("transaction_id", text("tx9")),
        ("event_data", FieldValue::Json("[{\"a\":1}]".to_string())),
    ]);
    assert_eq!(event.account_id.as_deref(), Some("vote.dao"));
    assert_eq!(event.tx_hash.as_deref(), Some("tx9"));
    assert_eq!(event.receipt_id, None);
    let mut sub = pause_subscription();
    sub.summary_template =
        Some("{event_event} on {account_id} at {block_height}: {event_data} {tx_hash}".to_string());
    sub.dedup_key_template = Some("hos-vote-{transaction_id}".to_string());
    assert_eq!(
        format_summary(&event, &sub),
        "add_vote on vote.dao at 42: [{\"a\":1}] {tx_hash}"
    );
    assert_eq!(format_dedup_key(&event, &sub), Some("hos-vote-tx9".to_string()));
    sub.dedup_key_template = None;
    assert_eq!(format_dedup_key(&event, &sub), Some("tx9".to_string()));
}

#[test]
fn log_event_identifiers_must_be_strings() {
    let event = log_event(vec![
        ("account_id", FieldValue::Json("17".to_string())),
        ("transaction_id", FieldValue::Json("null".to_string())),
        ("receipt_id", text("r1")),
    ]);
    assert_eq!(event.account_id, None);
    assert_eq!(event.tx_hash, None);
    assert_eq!(event.receipt_id.as_deref(), Some("r1"));
    assert_eq!(format_dedup_key(&event, &pause_subscription()), Some("r1".to_string()));
}

#[test]
fn explorer_link_prefers_the_transaction() {
    assert_eq!(
        get_explorer_link(&pause_event(), false),
        Some(("https://nearblocks.io/txns/abc".to_string(), "View Transaction".to_string()))
    );
    assert_eq!(
        get_explorer_link(&pause_event(), true),
        Some(("https://testnet.nearblocks.io/txns/abc".to_string(), "View Transaction".to_string()))
    );
}

#[test]
fn explorer_link_falls_back_to_the_account() {
    let mut event = pause_event();
    event.tx_hash = None;
    assert_eq!(
        get_explorer_link(&event, false),
        Some(("https://nearblocks.io/address/venear.near".to_string(), "View Contract".to_string()))
    );
    assert_eq!(
        get_explorer_link(&event, true),
        Some((
            "https://testnet.nearblocks.io/address/venear.near".to_string(),
            "View Contract".to_string()
        ))
    );
}

#[test]
fn explorer_link_needs_an_identifier() {
    let mut event = pause_event();
    event.tx_hash = None;
    event.account_id = None;
    assert_eq!(get_explorer_link(&event, false), None);
}

#[test]
fn stream_address_by_network() {
    assert_eq!(get_ws_url("log_nep297", false), "wss://ws-events-v3.intear.tech/events/log_nep297");
    assert_eq!(
        get_ws_url("tx_transaction", true),
        "wss://ws-events-v3-testnet.intear.tech/events/tx_transaction"
    );
}

#[test]
fn source_label_names_the_account() {
    assert_eq!(format_source(&pause_event()), "near:venear.near");
    let mut event = pause_event();
    event.account_id = None;
    assert_eq!(format_source(&event), "near:unknown");
}
