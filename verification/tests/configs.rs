use near_pagerduty_alerts::subscription::{
    read_subscription, resolve_routing_key, ConfigError, RawSubscription, Severity,
    SourceSelector,
};
use near_pagerduty_alerts::{
    contract_events_config, default_reconnect_delay, default_severity, house_of_stake_config,
    transaction_monitor_config, EventSubscription,
};

fn equals_condition_value(path: &str, value: &str) -> serde_json::Value {
    let mut operator = serde_json::Map::new();
    operator.insert("Equals".to_string(), serde_json::Value::String(value.to_string()));
    let mut condition = serde_json::Map::new();
    condition.insert("path".to_string(), serde_json::Value::String(path.to_string()));
    condition.insert("operator".to_string(), serde_json::Value::Object(operator));
    serde_json::Value::Object(condition)
}

fn all_of_value(conditions: Vec<serde_json::Value>) -> serde_json::Value {
    let mut filter = serde_json::Map::new();
    filter.insert("And".to_string(), serde_json::Value::Array(conditions));
    serde_json::Value::Object(filter)
}

fn feed_parts(source: &SourceSelector) -> (String, serde_json::Value) {
    match source {
        SourceSelector::EventFeed { event_type, filter } => {
            (event_type.clone(), serde_json::from_str(filter).expect("filter is JSON"))
        }
        SourceSelector::AccountActivity { .. } => panic!("expected an event-feed subscription"),
    }
}

#[test]
fn test_house_of_stake_config() {
    let config = house_of_stake_config("test-key");
    assert_eq!(config.subscriptions.len(), 3);
    assert_eq!(config.subscriptions[0].name, "HoS: New Proposal");
}

#[test]
fn test_contract_events_config() {
    let config = contract_events_config("test-key", "test.near", Some("nep141"));
    assert_eq!(config.subscriptions.len(), 1);
}

#[test]
fn house_of_stake_subscriptions_in_full() {
    let config = house_of_stake_config("test-key");
    assert_eq!(config.routing_key, "test-key");
    assert_eq!(config.reconnect_delay_secs, 5);
    let names = ["HoS: New Proposal", "HoS: Proposal Approved", "HoS: Vote Cast"];
    let kinds = ["create_proposal", "proposal_approve", "add_vote"];
    let severities = [Severity::Warning, Severity::Info, Severity::Info];
    let summaries = [
        "House of Stake: New proposal created",
        "House of Stake: Proposal approved for voting",
        "House of Stake: Vote cast on proposal",
    ];
    let keys = [
        "hos-proposal-{transaction_id}",
        "hos-approve-{transaction_id}",
        "hos-vote-{transaction_id}",
    ];
    for i in 0..3 {
        let s = &config.subscriptions[i];
        assert_eq!(s.name, names[i]);
        assert_eq!(s.severity, severities[i]);
        assert_eq!(s.summary_template.as_deref(), Some(summaries[i]));
        assert_eq!(s.dedup_key_template.as_deref(), Some(keys[i]));
        assert!(!s.testnet);
        let (event_type, filter) = feed_parts(&s.source);
        assert_eq!(event_type, "log_nep297");
        assert_eq!(
            filter,
            all_of_value(vec![
                equals_condition_value("account_id", "vote.dao"),
                equals_condition_value("event_standard", "venear"),
                equals_condition_value("event_event", kinds[i]),
            ])
        );
    }
}

#[test]
fn house_of_stake_filter_text_is_exact() {
    let config = house_of_stake_config("k");
    match &config.subscriptions[2].source {
        SourceSelector::EventFeed { filter, .. } => assert_eq!(
            filter,
            "{\"And\":[{\"path\":\"account_id\",\"operator\":{\"Equals\":\"vote.dao\"}},\
{\"path\":\"event_standard\",\"operator\":{\"Equals\":\"venear\"}},\
{\"path\":\"event_event\",\"operator\":{\"Equals\":\"add_vote\"}}]}"
        ),
        _ => panic!("expected an event-feed subscription"),
    }
}

#[test]
fn contract_events_config_with_standard() {
    let config = contract_events_config("test-key", "test.near", Some("nep141"));
    let s = &config.subscriptions[0];
    assert_eq!(s.name, "Contract Events: test.near");
    assert_eq!(s.severity, Severity::Warning);
    assert_eq!(s.summary_template.as_deref(), Some("Event on test.near: {event_event}"));
    assert_eq!(s.dedup_key_template.as_deref(), Some("test.near-{transaction_id}"));
    let (event_type, filter) = feed_parts(&s.source);
    assert_eq!(event_type, "log_nep297");
    assert_eq!(
        filter,
        all_of_value(vec![
            equals_condition_value("account_id", "test.near"),
            equals_condition_value("event_standard", "nep141"),
        ])
    );
}

#[test]
fn contract_events_config_without_standard() {
    let config = contract_events_config("test-key", "test.near", None);
    let (_, filter) = feed_parts(&config.subscriptions[0].source);
    assert_eq!(filter, all_of_value(vec![equals_condition_value("account_id", "test.near")]));
}

#[test]
fn contract_id_is_escaped_in_the_filter() {
    let config = contract_events_config("k", "odd\"name\\x", None);
    let (_, filter) = feed_parts(&config.subscriptions[0].source);
    assert_eq!(filter, all_of_value(vec![equals_condition_value("account_id", "odd\"name\\x")]));
    match &config.subscriptions[0].source {
        SourceSelector::EventFeed { filter, .. } => {
            assert!(filter.contains("\"odd\\\"name\\\\x\""));
        }
        _ => panic!("expected an event-feed subscription"),
    }
}

#[test]
fn transaction_monitor_config_in_full() {
    let config = transaction_monitor_config("test-key", "app.near");
    assert_eq!(config.subscriptions.len(), 1);
    assert_eq!(config.reconnect_delay_secs, 5);
    let s = &config.subscriptions[0];
    assert_eq!(s.name, "Transactions to: app.near");
    assert_eq!(s.severity, Severity::Warning);
    assert_eq!(s.summary_template.as_deref(), Some("Transaction to app.near from {signer_id}"));
    assert_eq!(s.dedup_key_template.as_deref(), Some("tx-app.near-{transaction_id}"));
    let (event_type, filter) = feed_parts(&s.source);
    assert_eq!(event_type, "tx_transaction");
    assert_eq!(filter, all_of_value(vec![equals_condition_value("receiver_id", "app.near")]));
}

#[test]
fn defaults_of_a_subscription() {
    assert_eq!(default_reconnect_delay(), 5);
    assert_eq!(default_severity(), "warning");
    assert_eq!(Severity::default(), Severity::Warning);
}

#[test]
fn severity_names_round_trip() {
    for s in [Severity::Critical, Severity::Error, Severity::Warning, Severity::Info] {
        assert_eq!(Severity::parse(&s.as_string()), Some(s));
    }
    assert_eq!(Severity::Critical.as_string(), "critical");
    assert_eq!(Severity::Error.as_string(), "error");
    assert_eq!(Severity::Info.as_string(), "info");
    assert_eq!(Severity::parse("Warning"), None);
    assert_eq!(Severity::parse(""), None);
}

#[test]
fn routing_key_from_file_stands() {
    let config = house_of_stake_config("from-file");
    let resolved = resolve_routing_key(config, Some("from-env".to_string())).unwrap();
    assert_eq!(resolved.routing_key, "from-file");
    assert_eq!(resolved.subscriptions.len(), 3);
}

#[test]
fn empty_routing_key_falls_back_to_environment() {
    let config = house_of_stake_config("");
    let resolved = resolve_routing_key(config, Some("from-env".to_string())).unwrap();
    assert_eq!(resolved.routing_key, "from-env");
    assert_eq!(resolved.subscriptions.len(), 3);
}

#[test]
fn missing_routing_key_is_refused() {
    let config = house_of_stake_config("");
    assert_eq!(resolve_routing_key(config, None), Err(ConfigError::MissingRoutingKey));
}

fn raw_feed() -> RawSubscription {
    RawSubscription {
        name: "votes".to_string(),
        account_id: None,
        method_name: None,
        event_type: Some("log_nep297".to_string()),
        filter: Some("{\"And\":[]}".to_string()),
        severity: "error".to_string(),
        summary_template: Some("Vote on {account_id}".to_string()),
        testnet: true,
        dedup_key_template: None,
    }
}

fn raw_account() -> RawSubscription {
    RawSubscription {
        name: "paused".to_string(),
        account_id: Some("venear.near".to_string()),
        method_name: Some("pause".to_string()),
        event_type: None,
        filter: None,
        severity: "critical".to_string(),
        summary_template: None,
        testnet: false,
        dedup_key_template: Some("pause-{tx_hash}".to_string()),
    }
}

#[test]
fn reading_an_event_feed_subscription() {
    assert_eq!(
        read_subscription(raw_feed()),
        Ok(EventSubscription {
            name: "votes".to_string(),
            source: SourceSelector::EventFeed {
                event_type: "log_nep297".to_string(),
                filter: "{\"And\":[]}".to_string(),
            },
            severity: Severity::Error,
            summary_template: Some("Vote on {account_id}".to_string()),
            testnet: true,
            dedup_key_template: None,
        })
    );
}

#[test]
fn reading_an_account_subscription() {
    assert_eq!(
        read_subscription(raw_account()),
        Ok(EventSubscription {
            name: "paused".to_string(),
            source: SourceSelector::AccountActivity {
                account_id: "venear.near".to_string(),
                method_name: Some("pause".to_string()),
            },
            severity: Severity::Critical,
            summary_template: None,
            testnet: false,
            dedup_key_template: Some("pause-{tx_hash}".to_string()),
        })
    );
    let mut any_method = raw_account();
    any_method.method_name = None;
    match read_subscription(any_method).unwrap().source {
        SourceSelector::AccountActivity { method_name, .. } => assert_eq!(method_name, None),
        _ => panic!("expected an account-activity subscription"),
    }
}

#[test]
fn a_subscription_names_exactly_one_source() {
    let mut both = raw_account();
    both.event_type = Some("log_nep297".to_string());
    both.filter = Some("{}".to_string());
    assert_eq!(read_subscription(both), Err(ConfigError::AmbiguousSource));

    let mut account_with_filter = raw_account();
    account_with_filter.filter = Some("{}".to_string());
    assert_eq!(read_subscription(account_with_filter), Err(ConfigError::AmbiguousSource));

    let mut feed_with_method = raw_feed();
    feed_with_method.method_name = Some("pause".to_string());
    assert_eq!(read_subscription(feed_with_method), Err(ConfigError::AmbiguousSource));

    let mut feed_without_filter = raw_feed();
    feed_without_filter.filter = None;
    assert_eq!(read_subscription(feed_without_filter), Err(ConfigError::AmbiguousSource));

    let mut filter_alone = raw_feed();
    filter_alone.event_type = None;
    assert_eq!(read_subscription(filter_alone), Err(ConfigError::AmbiguousSource));

    let mut neither = raw_feed();
    neither.event_type = None;
    neither.filter = None;
    assert_eq!(read_subscription(neither), Err(ConfigError::AmbiguousSource));
}

#[test]
fn a_subscription_names_a_known_severity() {
    let mut loud = raw_feed();
    loud.severity = "fatal".to_string();
    assert_eq!(read_subscription(loud), Err(ConfigError::UnknownSeverity));
    let mut shouted = raw_account();
    shouted.severity = "CRITICAL".to_string();
    assert_eq!(read_subscription(shouted), Err(ConfigError::UnknownSeverity));
    // the source is judged first
    let mut both_wrong = raw_feed();
    both_wrong.filter = None;
    both_wrong.severity = "fatal".to_string();
    assert_eq!(read_subscription(both_wrong), Err(ConfigError::AmbiguousSource));
}

#[test]
fn default_severity_is_a_known_one() {
    let mut raw = raw_feed();
    raw.severity = default_severity();
    assert_eq!(read_subscription(raw).unwrap().severity, Severity::Warning);
}
