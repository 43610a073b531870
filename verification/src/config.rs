//! Ready-made configurations for common monitoring setups.

use vstd::prelude::*;
use crate::filter::{all_of, build_all_of, build_equals_condition, equals_condition};
use crate::subscription::{
    subscriptions_view, ConfigModel, EventSubscription, PagerDutyAlertConfig, SelectorModel,
    Severity, SourceSelector, SubscriptionModel,
};
use crate::text::{each_text, join2, join3};

verus! {

/// A configuration of event-feed subscriptions only: the default reconnect
/// delay, and no account-activity feed.
pub open spec fn event_feed_config(
    routing_key: Seq<char>,
    subscriptions: Seq<SubscriptionModel>,
) -> ConfigModel {
    ConfigModel {
        routing_key,
        subscriptions,
        reconnect_delay_secs: 5,
        account_stream_url: Seq::empty(),
        account_stream_secret: Seq::empty(),
    }
}

/// The filter for one kind of governance event: events of the standard
/// `venear` and the given kind that the account `vote.dao` emits.
pub open spec fn governance_filter(event: Seq<char>) -> Seq<char> {
    all_of(
        seq![
            equals_condition("account_id"@, "vote.dao"@),
            equals_condition("event_standard"@, "venear"@),
            equals_condition("event_event"@, event),
        ],
    )
}

/// A mainnet subscription to the log events that pass `filter`.
pub open spec fn log_subscription(
    name: Seq<char>,
    filter: Seq<char>,
    severity: Severity,
    summary: Seq<char>,
    dedup_key: Seq<char>,
) -> SubscriptionModel {
    SubscriptionModel {
        name,
        source: SelectorModel::EventFeed { event_type: "log_nep297"@, filter },
        severity,
        summary_template: Some(summary),
        testnet: false,
        dedup_key_template: Some(dedup_key),
    }
}

/// The configuration that watches House of Stake governance: proposals
/// created (a warning), proposals approved for voting and votes cast (both
/// for information), each deduplicated by transaction.
pub open spec fn house_of_stake_model(routing_key: Seq<char>) -> ConfigModel {
    event_feed_config(
        routing_key,
        seq![
            log_subscription(
                "HoS: New Proposal"@,
                governance_filter("create_proposal"@),
                Severity::Warning,
                "House of Stake: New proposal created"@,
                "hos-proposal-{transaction_id}"@,
            ),
            log_subscription(
                "HoS: Proposal Approved"@,
                governance_filter("proposal_approve"@),
                Severity::Info,
                "House of Stake: Proposal approved for voting"@,
                "hos-approve-{transaction_id}"@,
            ),
            log_subscription(
                "HoS: Vote Cast"@,
                governance_filter("add_vote"@),
                Severity::Info,
                "House of Stake: Vote cast on proposal"@,
                "hos-vote-{transaction_id}"@,
            ),
        ],
    )
}

/// Builds the filter for one kind of governance event.
fn build_governance_filter(event: &str) -> (r: String)
    ensures
        r@ == governance_filter(event@),
{
    let mut conditions: Vec<String> = Vec::new();
    conditions.push(build_equals_condition("account_id", "vote.dao"));
    conditions.push(build_equals_condition("event_standard", "venear"));
    conditions.push(build_equals_condition("event_event", event));
    assert(each_text(conditions@) =~= seq![
        equals_condition("account_id"@, "vote.dao"@),
        equals_condition("event_standard"@, "venear"@),
        equals_condition("event_event"@, event@),
    ]);
    build_all_of(&conditions)
}

/// Builds a mainnet subscription to the log events that pass `filter`.
fn build_log_subscription(
    name: String,
    filter: String,
    severity: Severity,
    summary: String,
    dedup_key: String,
) -> (r: EventSubscription)
    ensures
        r@ == log_subscription(name@, filter@, severity, summary@, dedup_key@),
{
    EventSubscription {
        name,
        source: SourceSelector::EventFeed { event_type: "log_nep297".to_string(), filter },
        severity,
        summary_template: Some(summary),
        testnet: false,
        dedup_key_template: Some(dedup_key),
    }
}

/// Wraps subscriptions into a configuration of event-feed subscriptions.
fn build_event_feed_config(routing_key: &str, subscriptions: Vec<EventSubscription>) -> (r:
    PagerDutyAlertConfig)
    ensures
        r@ == event_feed_config(routing_key@, subscriptions_view(subscriptions@)),
        r.subscriptions == subscriptions,
{
    PagerDutyAlertConfig {
        routing_key: routing_key.to_string(),
        subscriptions,
        reconnect_delay_secs: 5,
        account_stream_url: String::new(),
        account_stream_secret: String::new(),
    }
}

/// The configuration that watches House of Stake governance events.
pub fn house_of_stake_config(routing_key: &str) -> (r: PagerDutyAlertConfig)
    ensures
        r@ == house_of_stake_model(routing_key@),
        r.subscriptions.len() == 3,
{
    let mut subscriptions: Vec<EventSubscription> = Vec::new();
    subscriptions.push(
        build_log_subscription(
            "HoS: New Proposal".to_string(),
            build_governance_filter("create_proposal"),
            Severity::Warning,
            "House of Stake: New proposal created".to_string(),
            "hos-proposal-{transaction_id}".to_string(),
        ),
    );
    subscriptions.push(
        build_log_subscription(
            "HoS: Proposal Approved".to_string(),
            build_governance_filter("proposal_approve"),
            Severity::Info,
            "House of Stake: Proposal approved for voting".to_string(),
            "hos-approve-{transaction_id}".to_string(),
        ),
    );
    subscriptions.push(
        build_log_subscription(
            "HoS: Vote Cast".to_string(),
            build_governance_filter("add_vote"),
            Severity::Info,
            "House of Stake: Vote cast on proposal".to_string(),
            "hos-vote-{transaction_id}".to_string(),
        ),
    );
    assert(subscriptions_view(subscriptions@) =~= house_of_stake_model(
        routing_key@,
    ).subscriptions);
    build_event_feed_config(routing_key, subscriptions)
}

/// The conditions of a contract's event filter: the contract's account, and
/// the event standard where one is asked for.
pub open spec fn contract_conditions(contract_id: Seq<char>, event_standard: Option<Seq<char>>) -> Seq<
    Seq<char>,
> {
    match event_standard {
        Some(standard) => seq![
            equals_condition("account_id"@, contract_id),
            equals_condition("event_standard"@, standard),
        ],
        None => seq![equals_condition("account_id"@, contract_id)],
    }
}

/// The configuration that watches the log events of one contract, of every
/// standard or of one: a single warning subscription whose summary names the
/// event and whose dedup key is the contract and the transaction.
pub open spec fn contract_events_model(
    routing_key: Seq<char>,
    contract_id: Seq<char>,
    event_standard: Option<Seq<char>>,
) -> ConfigModel {
    event_feed_config(
        routing_key,
        seq![
            log_subscription(
                "Contract Events: "@ + contract_id,
                all_of(contract_conditions(contract_id, event_standard)),
                Severity::Warning,
                "Event on "@ + contract_id + ": {event_event}"@,
                contract_id + "-{transaction_id}"@,
            ),
        ],
    )
}

/// The plain form of an optional borrowed string.
pub open spec fn borrowed_text(o: Option<&str>) -> Option<Seq<char>> {
    match o {
        Some(s) => Some(s@),
        None => None,
    }
}

/// The configuration that watches the log events of one contract.
pub fn contract_events_config(
    routing_key: &str,
    contract_id: &str,
    event_standard: Option<&str>,
) -> (r: PagerDutyAlertConfig)
    ensures
        r@ == contract_events_model(routing_key@, contract_id@, borrowed_text(event_standard)),
        r.subscriptions.len() == 1,
{
    let mut conditions: Vec<String> = Vec::new();
    conditions.push(build_equals_condition("account_id", contract_id));
    match event_standard {
        Some(standard) => {
            conditions.push(build_equals_condition("event_standard", standard));
        },
        None => {},
    }
    assert(each_text(conditions@) =~= contract_conditions(
        contract_id@,
        borrowed_text(event_standard),
    ));
    let mut subscriptions: Vec<EventSubscription> = Vec::new();
    subscriptions.push(
        build_log_subscription(
            join2("Contract Events: ", contract_id),
            build_all_of(&conditions),
            Severity::Warning,
            join3("Event on ", contract_id, ": {event_event}"),
            join2(contract_id, "-{transaction_id}"),
        ),
    );
    assert(subscriptions_view(subscriptions@) =~= contract_events_model(
        routing_key@,
        contract_id@,
        borrowed_text(event_standard),
    ).subscriptions);
    build_event_feed_config(routing_key, subscriptions)
}

/// The configuration that watches the transactions sent to one contract: a
/// single warning subscription whose summary names the signer and whose
/// dedup key is the contract and the transaction.
pub open spec fn transaction_monitor_model(
    routing_key: Seq<char>,
    contract_id: Seq<char>,
) -> ConfigModel {
    event_feed_config(
        routing_key,
        seq![
            SubscriptionModel {
                name: "Transactions to: "@ + contract_id,
                source: SelectorModel::EventFeed {
                    event_type: "tx_transaction"@,
                    filter: all_of(seq![equals_condition("receiver_id"@, contract_id)]),
                },
                severity: Severity::Warning,
                summary_template: Some(
                    "Transaction to "@ + contract_id + " from {signer_id}"@,
                ),
                testnet: false,
                dedup_key_template: Some("tx-"@ + contract_id + "-{transaction_id}"@),
            },
        ],
    )
}

/// The configuration that watches the transactions sent to one contract.
pub fn transaction_monitor_config(routing_key: &str, contract_id: &str) -> (r:
    PagerDutyAlertConfig)
    ensures
        r@ == transaction_monitor_model(routing_key@, contract_id@),
        r.subscriptions.len() == 1,
{
    let mut conditions: Vec<String> = Vec::new();
    conditions.push(build_equals_condition("receiver_id", contract_id));
    assert(each_text(conditions@) =~= seq![equals_condition("receiver_id"@, contract_id@)]);
    let mut subscriptions: Vec<EventSubscription> = Vec::new();
    subscriptions.push(
        EventSubscription {
            name: join2("Transactions to: ", contract_id),
            source: SourceSelector::EventFeed {
                event_type: "tx_transaction".to_string(),
                filter: build_all_of(&conditions),
            },
            severity: Severity::Warning,
            summary_template: Some(join3("Transaction to ", contract_id, " from {signer_id}")),
            testnet: false,
            dedup_key_template: Some(join3("tx-", contract_id, "-{transaction_id}")),
        },
    );
    assert(subscriptions_view(subscriptions@) =~= transaction_monitor_model(
        routing_key@,
        contract_id@,
    ).subscriptions);
    build_event_feed_config(routing_key, subscriptions)
}

} // verus!
