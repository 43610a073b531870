//! Subscriptions and the process-wide configuration.

use vstd::prelude::*;
use crate::template::opt_text;
use crate::text::same_text;

verus! {

/// How urgent the paging backend should treat an alert.
#[derive(Clone, Copy, Debug, PartialEq, Eq, Structural)]
pub enum Severity {
    Critical,
    Error,
    Warning,
    Info,
}

/// The name under which the paging backend knows a severity.
pub open spec fn severity_text(s: Severity) -> Seq<char> {
    match s {
        Severity::Critical => "critical"@,
        Severity::Error => "error"@,
        Severity::Warning => "warning"@,
        Severity::Info => "info"@,
    }
}

/// The severity that `text` names exactly, if it names one.
pub open spec fn severity_named(text: Seq<char>) -> Option<Severity> {
    if text == "critical"@ {
        Some(Severity::Critical)
    } else if text == "error"@ {
        Some(Severity::Error)
    } else if text == "warning"@ {
        Some(Severity::Warning)
    } else if text == "info"@ {
        Some(Severity::Info)
    } else {
        None
    }
}

impl Severity {
    /// The name under which the paging backend knows this severity.
    pub fn as_string(&self) -> (r: String)
        ensures
            r@ == severity_text(*self),
    {
        match self {
            Severity::Critical => "critical".to_string(),
            Severity::Error => "error".to_string(),
            Severity::Warning => "warning".to_string(),
            Severity::Info => "info".to_string(),
        }
    }

    /// Reads a severity from its name; any other text names none.
    pub fn parse(text: &str) -> (r: Option<Severity>)
        ensures
            r == severity_named(text@),
    {
        if same_text(text, "critical") {
            Some(Severity::Critical)
        } else if same_text(text, "error") {
            Some(Severity::Error)
        } else if same_text(text, "warning") {
            Some(Severity::Warning)
        } else if same_text(text, "info") {
            Some(Severity::Info)
        } else {
            None
        }
    }
}

impl Default for Severity {
    fn default() -> (r: Severity)
        ensures
            r == Severity::Warning,
    {
        Severity::Warning
    }
}

/// Every severity is read back from its own name.
pub proof fn lemma_severity_round_trip(s: Severity)
    ensures
        severity_named(severity_text(s)) == Some(s),
{
    reveal_strlit("critical");
    reveal_strlit("error");
    reveal_strlit("warning");
    reveal_strlit("info");
    assert("critical"@.len() == 8);
    assert("error"@.len() == 5);
    assert("warning"@.len() == 7);
    assert("info"@.len() == 4);
}

/// The severity name that a subscription gets when it names none.
pub fn default_severity() -> (r: String)
    ensures
        r@ == "warning"@,
        r@ == severity_text(Severity::Warning),
{
    "warning".to_string()
}

/// The seconds between a stream's failure and the next connection attempt,
/// where the configuration names none.
pub fn default_reconnect_delay() -> (r: u64)
    ensures
        r == 5,
{
    5
}

/// What upstream data a subscription watches. Exactly one of the two shapes.
#[derive(Clone, Debug, PartialEq, Eq)]
pub enum SourceSelector {
    /// The account-activity feed: every action on one account, or only the
    /// calls of one method on it. Matching happens on this side.
    AccountActivity { account_id: String, method_name: Option<String> },
    /// The event feed of one event type. `filter` is the JSON text of the
    /// filter expression that the upstream applies before it delivers.
    EventFeed { event_type: String, filter: String },
}

/// The plain form of a [`SourceSelector`].
pub enum SelectorModel {
    AccountActivity { account_id: Seq<char>, method_name: Option<Seq<char>> },
    EventFeed { event_type: Seq<char>, filter: Seq<char> },
}

impl View for SourceSelector {
    type V = SelectorModel;

    open spec fn view(&self) -> SelectorModel {
        match self {
            SourceSelector::AccountActivity { account_id, method_name } => {
                SelectorModel::AccountActivity {
                    account_id: account_id@,
                    method_name: opt_text(*method_name),
                }
            },
            SourceSelector::EventFeed { event_type, filter } => SelectorModel::EventFeed {
                event_type: event_type@,
                filter: filter@,
            },
        }
    }
}

/// A named monitoring rule.
#[derive(Clone, Debug, PartialEq, Eq)]
pub struct EventSubscription {
    /// The operator's label for the rule.
    pub name: String,
    pub source: SourceSelector,
    pub severity: Severity,
    /// The summary's template; `None` asks for the default summary.
    pub summary_template: Option<String>,
    /// Selects the upstream's testnet endpoints and explorer.
    pub testnet: bool,
    /// The dedup key's template; `None` asks for the default key.
    pub dedup_key_template: Option<String>,
}

/// The plain form of an [`EventSubscription`].
pub struct SubscriptionModel {
    pub name: Seq<char>,
    pub source: SelectorModel,
    pub severity: Severity,
    pub summary_template: Option<Seq<char>>,
    pub testnet: bool,
    pub dedup_key_template: Option<Seq<char>>,
}

impl View for EventSubscription {
    type V = SubscriptionModel;

    open spec fn view(&self) -> SubscriptionModel {
        SubscriptionModel {
            name: self.name@,
            source: self.source@,
            severity: self.severity,
            summary_template: opt_text(self.summary_template),
            testnet: self.testnet,
            dedup_key_template: opt_text(self.dedup_key_template),
        }
    }
}

/// The plain form of a list of subscriptions.
pub open spec fn subscriptions_view(subs: Seq<EventSubscription>) -> Seq<SubscriptionModel> {
    subs.map_values(|s: EventSubscription| s@)
}

/// The configuration of the whole process, read once at startup.
#[derive(Clone, Debug, PartialEq, Eq)]
pub struct PagerDutyAlertConfig {
    /// The paging backend's routing key.
    pub routing_key: String,
    /// The subscriptions, in the operator's order.
    pub subscriptions: Vec<EventSubscription>,
    /// Seconds to wait before a failed stream is connected again.
    pub reconnect_delay_secs: u64,
    /// The address of the account-activity feed, which all account-activity
    /// subscriptions share.
    pub account_stream_url: String,
    /// The secret that the account-activity feed asks for in the first
    /// message of a connection.
    pub account_stream_secret: String,
}

/// The plain form of a [`PagerDutyAlertConfig`].
pub struct ConfigModel {
    pub routing_key: Seq<char>,
    pub subscriptions: Seq<SubscriptionModel>,
    pub reconnect_delay_secs: nat,
    pub account_stream_url: Seq<char>,
    pub account_stream_secret: Seq<char>,
}

impl View for PagerDutyAlertConfig {
    type V = ConfigModel;

    open spec fn view(&self) -> ConfigModel {
        ConfigModel {
            routing_key: self.routing_key@,
            subscriptions: subscriptions_view(self.subscriptions@),
            reconnect_delay_secs: self.reconnect_delay_secs as nat,
            account_stream_url: self.account_stream_url@,
            account_stream_secret: self.account_stream_secret@,
        }
    }
}

/// Why a configuration cannot be used.
#[derive(Clone, Copy, Debug, PartialEq, Eq, Structural)]
pub enum ConfigError {
    /// Neither the configuration nor the environment names a routing key.
    MissingRoutingKey,
    /// A subscription names no source, or parts of both kinds of source.
    AmbiguousSource,
    /// A subscription names a severity that the backend does not know.
    UnknownSeverity,
}

/// A subscription as a configuration file writes it: every part of either
/// kind of source is optional, and the severity is still text.
#[derive(Clone, Debug, PartialEq, Eq)]
pub struct RawSubscription {
    pub name: String,
    pub account_id: Option<String>,
    pub method_name: Option<String>,
    pub event_type: Option<String>,
    /// The JSON text of the filter expression.
    pub filter: Option<String>,
    pub severity: String,
    pub summary_template: Option<String>,
    pub testnet: bool,
    pub dedup_key_template: Option<String>,
}

/// The source that the optional parts name: an account, with or without a
/// method, and nothing else; or an event type with its filter, and nothing
/// else. Every other combination names none.
pub open spec fn source_named(
    account_id: Option<Seq<char>>,
    method_name: Option<Seq<char>>,
    event_type: Option<Seq<char>>,
    filter: Option<Seq<char>>,
) -> Option<SelectorModel> {
    if account_id is Some && event_type is None && filter is None {
        Some(SelectorModel::AccountActivity { account_id: account_id->0, method_name })
    } else if account_id is None && method_name is None && event_type is Some && filter is Some {
        Some(SelectorModel::EventFeed { event_type: event_type->0, filter: filter->0 })
    } else {
        None
    }
}

/// The subscription that a raw one stands for, or the reason why it stands
/// for none. The source is judged before the severity.
pub open spec fn subscription_read(raw: RawSubscription) -> Result<SubscriptionModel, ConfigError> {
    match source_named(
        opt_text(raw.account_id),
        opt_text(raw.method_name),
        opt_text(raw.event_type),
        opt_text(raw.filter),
    ) {
        None => Err(ConfigError::AmbiguousSource),
        Some(source) => match severity_named(raw.severity@) {
            None => Err(ConfigError::UnknownSeverity),
            Some(severity) => Ok(
                SubscriptionModel {
                    name: raw.name@,
                    source,
                    severity,
                    summary_template: opt_text(raw.summary_template),
                    testnet: raw.testnet,
                    dedup_key_template: opt_text(raw.dedup_key_template),
                },
            ),
        },
    }
}

/// The plain form of the outcome of reading a subscription.
pub open spec fn read_view(r: Result<EventSubscription, ConfigError>) -> Result<
    SubscriptionModel,
    ConfigError,
> {
    match r {
        Ok(s) => Ok(s@),
        Err(e) => Err(e),
    }
}

/// Reads a subscription as a configuration file writes it.
pub fn read_subscription(raw: RawSubscription) -> (r: Result<EventSubscription, ConfigError>)
    ensures
        read_view(r) == subscription_read(raw),
{
    let RawSubscription {
        name,
        account_id,
        method_name,
        event_type,
        filter,
        severity,
        summary_template,
        testnet,
        dedup_key_template,
    } = raw;
    let source = match (account_id, event_type, filter) {
        (Some(account_id), None, None) => SourceSelector::AccountActivity {
            account_id,
            method_name,
        },
        (None, Some(event_type), Some(filter)) => {
            if method_name.is_some() {
                return Err(ConfigError::AmbiguousSource);
            }
            SourceSelector::EventFeed { event_type, filter }
        },
        _ => {
            return Err(ConfigError::AmbiguousSource);
        },
    };
    match Severity::parse(severity.as_str()) {
        None => Err(ConfigError::UnknownSeverity),
        Some(severity) => Ok(
            EventSubscription {
                name,
                source,
                severity,
                summary_template,
                testnet,
                dedup_key_template,
            },
        ),
    }
}

/// The routing key to run under: the configured one, or, where that is
/// empty, the one from the environment, or none.
pub open spec fn chosen_routing_key(
    configured: Seq<char>,
    from_environment: Option<Seq<char>>,
) -> Option<Seq<char>> {
    if configured.len() > 0 {
        Some(configured)
    } else {
        from_environment
    }
}

/// Settles the routing key of a configuration that was read from a file:
/// a key in the file stands; an empty one is replaced by the key from the
/// environment; without either the configuration is refused.
pub fn resolve_routing_key(config: PagerDutyAlertConfig, from_environment: Option<String>) -> (r:
    Result<PagerDutyAlertConfig, ConfigError>)
    ensures
        chosen_routing_key(config@.routing_key, opt_text(from_environment)) is None ==> r
            == Err::<PagerDutyAlertConfig, ConfigError>(ConfigError::MissingRoutingKey),
        chosen_routing_key(config@.routing_key, opt_text(from_environment)) matches Some(key)
            ==> r is Ok && r->Ok_0@ == (ConfigModel { routing_key: key, ..config@ })
            && r->Ok_0.subscriptions == config.subscriptions,
{
    if !config.routing_key.as_str().is_empty() {
        Ok(config)
    } else {
        match from_environment {
            Some(key) => {
                let mut config = config;
                config.routing_key = key;
                Ok(config)
            },
            None => Err(ConfigError::MissingRoutingKey),
        }
    }
}

} // verus!
