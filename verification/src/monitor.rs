//! The monitor: one worker per upstream connection, and the path of each
//! event from matching through formatting to the trigger request.

use vstd::prelude::*;
use crate::decode::UpstreamShape;
use crate::dispatch::{
    current_timestamp, is_utc_timestamp, trigger_model, AlertDetails, DetailsModel,
    DispatchError, PagerDutyClient, PagerDutyEvent, TriggerModel,
};
use crate::event::{EventModel, IncomingEvent};
use crate::filter::{account_filter_message, build_account_filter_message};
use crate::format::{
    dedup_key_text, explorer_link, format_dedup_key, format_source, format_summary,
    get_explorer_link, get_ws_url, source_label, summary_text, ws_url, SUMMARY_LIMIT,
};
use crate::matcher::event_matches;
use crate::subscription::{
    severity_text, subscriptions_view, ConfigModel, EventSubscription, PagerDutyAlertConfig,
    SelectorModel, SourceSelector, SubscriptionModel,
};
use crate::text::{each_text, same_text};
use crate::worker::{PlanModel, WorkerPlan};

verus! {

/// The details that go with the alert of an event under a subscription:
/// the subscription's name, its event type where it has one, and the event
/// itself, unchanged.
pub open spec fn details_model(event: EventModel, subscription: SubscriptionModel) -> DetailsModel {
    DetailsModel {
        subscription_name: subscription.name,
        event_type: match subscription.source {
            SelectorModel::EventFeed { event_type, .. } => Some(event_type),
            SelectorModel::AccountActivity { .. } => None,
        },
        event,
    }
}

/// The trigger request for an event under a subscription, sent under
/// `routing_key` and stamped with `timestamp`: summary and dedup key by the
/// subscription's templates or the defaults, the account as source, the
/// subscription's severity, the event as details and the most specific
/// explorer link.
pub open spec fn alert_model(
    routing_key: Seq<char>,
    event: EventModel,
    subscription: SubscriptionModel,
    timestamp: Seq<char>,
) -> TriggerModel {
    trigger_model(
        routing_key,
        summary_text(event, subscription),
        source_label(event),
        severity_text(subscription.severity),
        dedup_key_text(event, subscription),
        Some(details_model(event, subscription)),
        explorer_link(event, subscription.testnet),
        timestamp,
    )
}

/// What an event calls for under one subscription: its trigger request
/// where the event satisfies the subscription, and nothing where it does
/// not.
pub open spec fn alert_for(
    routing_key: Seq<char>,
    event: EventModel,
    subscription: SubscriptionModel,
    timestamp: Seq<char>,
) -> Option<TriggerModel> {
    if crate::matcher::matches(event, subscription) {
        Some(alert_model(routing_key, event, subscription, timestamp))
    } else {
        None
    }
}

/// The plain form of an optional trigger request.
pub open spec fn alert_view(alert: Option<PagerDutyEvent>) -> Option<TriggerModel> {
    match alert {
        Some(a) => Some(a@),
        None => None,
    }
}

/// The timestamp that a list of trigger requests shares: that of its
/// first, or no text where the list is empty.
pub open spec fn common_stamp(alerts: Seq<PagerDutyEvent>) -> Seq<char> {
    if alerts.len() > 0 {
        alerts[0]@.timestamp
    } else {
        Seq::empty()
    }
}

/// Whether a subscription watches the account-activity feed.
pub open spec fn on_account_feed(subscription: SubscriptionModel) -> bool {
    subscription.source is AccountActivity
}

/// The positions, in rising order, of the subscriptions that watch the
/// account-activity feed.
pub open spec fn account_positions(subscriptions: Seq<SubscriptionModel>) -> Seq<int>
    decreases subscriptions.len(),
{
    if subscriptions.len() == 0 {
        Seq::empty()
    } else {
        let before = account_positions(subscriptions.drop_last());
        if on_account_feed(subscriptions.last()) {
            before.push(subscriptions.len() - 1)
        } else {
            before
        }
    }
}

/// The accounts that the account-activity subscriptions watch, each once,
/// in the order of their first subscription.
pub open spec fn watched_accounts(subscriptions: Seq<SubscriptionModel>) -> Seq<Seq<char>>
    decreases subscriptions.len(),
{
    if subscriptions.len() == 0 {
        Seq::empty()
    } else {
        let before = watched_accounts(subscriptions.drop_last());
        match subscriptions.last().source {
            SelectorModel::AccountActivity { account_id, .. } => if before.contains(account_id) {
                before
            } else {
                before.push(account_id)
            },
            SelectorModel::EventFeed { .. } => before,
        }
    }
}

/// The one worker that serves every account-activity subscription.
pub open spec fn account_plan(config: ConfigModel) -> PlanModel {
    PlanModel {
        url: config.account_stream_url,
        shape: UpstreamShape::AccountActivity,
        filter_message: account_filter_message(
            config.account_stream_secret,
            watched_accounts(config.subscriptions),
        ),
        subscriptions: account_positions(config.subscriptions),
        reconnect_delay_secs: config.reconnect_delay_secs,
    }
}

/// The worker of the event-feed subscription at `position`: its own
/// connection, with the subscription's filter sent as it stands.
pub open spec fn feed_plan(
    config: ConfigModel,
    position: int,
    event_type: Seq<char>,
    filter: Seq<char>,
) -> PlanModel {
    PlanModel {
        url: ws_url(event_type, config.subscriptions[position].testnet),
        shape: UpstreamShape::EventFeed,
        filter_message: filter,
        subscriptions: seq![position],
        reconnect_delay_secs: config.reconnect_delay_secs,
    }
}

/// The workers of the event-feed subscriptions among the first `upto`, one
/// each, in the order of the subscriptions.
pub open spec fn feed_plans(config: ConfigModel, upto: int) -> Seq<PlanModel>
    decreases upto,
{
    if upto <= 0 || upto > config.subscriptions.len() {
        Seq::empty()
    } else {
        let before = feed_plans(config, upto - 1);
        match config.subscriptions[upto - 1].source {
            SelectorModel::EventFeed { event_type, filter } => before.push(
                feed_plan(config, upto - 1, event_type, filter),
            ),
            SelectorModel::AccountActivity { .. } => before,
        }
    }
}

/// The workers that a configuration asks for: the shared account-activity
/// worker first, where any subscription watches that feed, then one worker
/// per event-feed subscription.
pub open spec fn worker_plans(config: ConfigModel) -> Seq<PlanModel> {
    (if account_positions(config.subscriptions).len() > 0 {
        seq![account_plan(config)]
    } else {
        Seq::empty()
    }) + feed_plans(config, config.subscriptions.len() as int)
}

/// The plain form of a list of plans.
pub open spec fn plans_view(plans: Seq<WorkerPlan>) -> Seq<PlanModel> {
    plans.map_values(|p: WorkerPlan| p@)
}

/// Of the positions that a worker serves, those whose subscription the
/// event satisfies, in the worker's order. A position outside the
/// configuration names no subscription and is passed over.
pub open spec fn alert_positions(
    event: EventModel,
    subscriptions: Seq<SubscriptionModel>,
    served: Seq<int>,
) -> Seq<int>
    decreases served.len(),
{
    if served.len() == 0 {
        Seq::empty()
    } else {
        let before = alert_positions(event, subscriptions, served.drop_last());
        let p = served.last();
        if 0 <= p < subscriptions.len() && crate::matcher::matches(event, subscriptions[p]) {
            before.push(p)
        } else {
            before
        }
    }
}

/// The plain form of a list of trigger requests.
pub open spec fn alerts_view(alerts: Seq<PagerDutyEvent>) -> Seq<TriggerModel> {
    alerts.map_values(|a: PagerDutyEvent| a@)
}

/// The trigger requests that an event calls for on a worker: one for each
/// served subscription that the event satisfies, in the worker's order, all
/// stamped with `timestamp`.
pub open spec fn alerts_model(
    routing_key: Seq<char>,
    event: EventModel,
    subscriptions: Seq<SubscriptionModel>,
    served: Seq<int>,
    timestamp: Seq<char>,
) -> Seq<TriggerModel> {
    alert_positions(event, subscriptions, served).map_values(
        |p: int| alert_model(routing_key, event, subscriptions[p], timestamp),
    )
}

/// An event that satisfies none of the served subscriptions calls for no
/// request at all.
pub proof fn lemma_no_match_no_alert(
    routing_key: Seq<char>,
    event: EventModel,
    subscriptions: Seq<SubscriptionModel>,
    served: Seq<int>,
    timestamp: Seq<char>,
)
    requires
        forall|k: int|
            0 <= k < served.len() && 0 <= served[k] < subscriptions.len() ==> !crate::matcher::matches(
                event,
                #[trigger] subscriptions[served[k]],
            ),
    ensures
        alerts_model(routing_key, event, subscriptions, served, timestamp).len() == 0,
    decreases served.len(),
{
    if served.len() > 0 {
        let before = served.drop_last();
        assert forall|k: int|
            0 <= k < before.len() && 0 <= before[k] < subscriptions.len() implies !crate::matcher::matches(
            event,
            #[trigger] subscriptions[before[k]],
        ) by {
            assert(before[k] == served[k]);
        }
        lemma_no_match_no_alert(routing_key, event, subscriptions, before, timestamp);
        let p = served.last();
        assert(p == served[served.len() - 1]);
    }
}

/// The service that watches the configured event streams.
pub struct NearPagerDutyMonitor {
    config: PagerDutyAlertConfig,
    pd_client: PagerDutyClient,
}

impl NearPagerDutyMonitor {
    /// A monitor for `config`, with a client under the configuration's
    /// routing key.
    pub fn new(config: PagerDutyAlertConfig) -> (r: Self)
        ensures
            r.config_model() == config@,
            r.routing_key_text() == config@.routing_key,
    {
        let pd_client = PagerDutyClient::new(config.routing_key.clone());
        NearPagerDutyMonitor { config, pd_client }
    }

    /// The configuration that this monitor runs.
    pub closed spec fn config_model(&self) -> ConfigModel {
        self.config@
    }

    /// The routing key of this monitor's client.
    pub closed spec fn routing_key_text(&self) -> Seq<char> {
        self.pd_client.routing_key_text()
    }

    /// The configuration that this monitor runs.
    pub fn config(&self) -> (r: &PagerDutyAlertConfig)
        ensures
            r@ == self.config_model(),
    {
        &self.config
    }

    /// The client that this monitor sends with.
    pub fn client(&self) -> (r: &PagerDutyClient)
        ensures
            r.routing_key_text() == self.routing_key_text(),
    {
        &self.pd_client
    }

    /// Plans the workers to start: what each connects to, sends first and
    /// serves. The caller runs each plan as a task of its own, for ever.
    pub fn start(&self) -> (r: Vec<WorkerPlan>)
        ensures
            plans_view(r@) == worker_plans(self.config_model()),
    {
        let subs = &self.config.subscriptions;
        let ghost config = self.config@;
        let ghost models = subscriptions_view(subs@);
        let n = subs.len();
        let mut positions: Vec<usize> = Vec::new();
        let mut accounts: Vec<String> = Vec::new();
        let mut feeds: Vec<WorkerPlan> = Vec::new();
        let mut i: usize = 0;
        proof {
            assert(models.take(0) =~= Seq::empty());
            assert(positions@.map_values(|i: usize| i as int) =~= Seq::<int>::empty());
            assert(each_text(accounts@) =~= Seq::<Seq<char>>::empty());
            assert(plans_view(feeds@) =~= Seq::<PlanModel>::empty());
        }
        while i < n
            invariant
                i <= n,
                n == subs.len(),
                subs == &self.config.subscriptions,
                config == self.config@,
                models == subscriptions_view(subs@),
                models == config.subscriptions,
                positions@.map_values(|i: usize| i as int) == account_positions(
                    models.take(i as int),
                ),
                each_text(accounts@) == watched_accounts(models.take(i as int)),
                plans_view(feeds@) == feed_plans(config, i as int),
            decreases n - i,
        {
            let ghost upto = models.take(i + 1);
            let ghost old_positions = positions@.map_values(|i: usize| i as int);
            let ghost old_accounts = each_text(accounts@);
            let ghost old_feeds = plans_view(feeds@);
            proof {
                assert(upto.drop_last() =~= models.take(i as int));
                assert(upto.last() == subs@[i as int]@);
                assert(models[i as int] == subs@[i as int]@);
            }
            match &subs[i].source {
                SourceSelector::AccountActivity { account_id, .. } => {
                    positions.push(i);
                    assert(positions@.map_values(|i: usize| i as int) =~= old_positions.push(
                        i as int,
                    ));
                    if !contains_text(&accounts, account_id.as_str()) {
                        accounts.push(account_id.clone());
                        assert(each_text(accounts@) =~= old_accounts.push(account_id@));
                    }
                },
                SourceSelector::EventFeed { event_type, filter } => {
                    let mut served: Vec<usize> = Vec::new();
                    served.push(i);
                    assert(served@.map_values(|i: usize| i as int) =~= seq![i as int]);
                    feeds.push(
                        WorkerPlan {
                            url: get_ws_url(event_type.as_str(), subs[i].testnet),
                            shape: UpstreamShape::EventFeed,
                            filter_message: filter.clone(),
                            subscriptions: served,
                            reconnect_delay_secs: self.config.reconnect_delay_secs,
                        },
                    );
                    assert(plans_view(feeds@) =~= old_feeds.push(
                        feed_plan(config, i as int, event_type@, filter@),
                    ));
                },
            }
            i = i + 1;
        }
        proof {
            assert(models.take(n as int) =~= models);
        }
        let mut plans: Vec<WorkerPlan> = Vec::new();
        if positions.len() > 0 {
            plans.push(
                WorkerPlan {
                    url: self.config.account_stream_url.clone(),
                    shape: UpstreamShape::AccountActivity,
                    filter_message: build_account_filter_message(
                        self.config.account_stream_secret.as_str(),
                        &accounts,
                    ),
                    subscriptions: positions,
                    reconnect_delay_secs: self.config.reconnect_delay_secs,
                },
            );
            assert(plans_view(plans@) =~= seq![account_plan(config)]);
        } else {
            assert(plans_view(plans@) =~= Seq::<PlanModel>::empty());
        }
        let ghost head = plans_view(plans@);
        plans.append(&mut feeds);
        assert(plans_view(plans@) =~= head + feed_plans(config, n as int));
        plans
    }

    /// Builds the trigger request of an event that satisfies the
    /// subscription, stamped with `timestamp`.
    fn build_alert(
        event: &IncomingEvent,
        subscription: &EventSubscription,
        pd_client: &PagerDutyClient,
        timestamp: String,
    ) -> (r: PagerDutyEvent)
        ensures
            r@ == alert_model(pd_client.routing_key_text(), event@, subscription@, timestamp@),
            r@.summary.len() <= SUMMARY_LIMIT,
    {
        let summary = format_summary(event, subscription);
        let source = format_source(event);
        let severity = subscription.severity.as_string();
        let dedup_key = format_dedup_key(event, subscription);
        let link = get_explorer_link(event, subscription.testnet);
        let details = AlertDetails {
            subscription_name: subscription.name.clone(),
            event_type: match &subscription.source {
                SourceSelector::EventFeed { event_type, .. } => Some(event_type.clone()),
                SourceSelector::AccountActivity { .. } => None,
            },
            event: event.copy(),
        };
        match &link {
            Some((href, text)) => pd_client.trigger_at(
                summary.as_str(),
                source.as_str(),
                severity.as_str(),
                dedup_key,
                Some(details),
                Some((href.as_str(), text.as_str())),
                timestamp,
            ),
            None => pd_client.trigger_at(
                summary.as_str(),
                source.as_str(),
                severity.as_str(),
                dedup_key,
                Some(details),
                None,
                timestamp,
            ),
        }
    }

    /// Handles one event under one subscription: where the event satisfies
    /// the subscription, its trigger request, stamped with `timestamp`;
    /// where it does not, nothing.
    pub fn process_event_at(
        event: &IncomingEvent,
        subscription: &EventSubscription,
        pd_client: &PagerDutyClient,
        timestamp: String,
    ) -> (r: Option<PagerDutyEvent>)
        ensures
            alert_view(r) == alert_for(
                pd_client.routing_key_text(),
                event@,
                subscription@,
                timestamp@,
            ),
            r matches Some(alert) ==> alert@.summary.len() <= SUMMARY_LIMIT,
    {
        if event_matches(event, subscription) {
            Some(Self::build_alert(event, subscription, pd_client, timestamp))
        } else {
            None
        }
    }

    /// Handles one event under one subscription, at the current time. An
    /// event that does not satisfy the subscription calls for nothing, and
    /// the clock is not read. One that does gets the request that
    /// [`Self::process_event_at`] builds for the timestamp it carries, or,
    /// where the clock cannot be read, no request.
    pub fn process_event(
        event: &IncomingEvent,
        subscription: &EventSubscription,
        pd_client: &PagerDutyClient,
    ) -> (r: Result<Option<PagerDutyEvent>, DispatchError>)
        ensures
            !crate::matcher::matches(event@, subscription@) ==> (r matches Ok(None)),
            crate::matcher::matches(event@, subscription@) ==> (r matches Ok(found) ==> (
            found matches Some(alert) && alert@ == alert_model(
                pd_client.routing_key_text(),
                event@,
                subscription@,
                alert@.timestamp,
            ) && is_utc_timestamp(alert@.timestamp) && alert@.summary.len() <= SUMMARY_LIMIT)),
            r matches Err(e) ==> e is ClockUnreadable,
    {
        if !event_matches(event, subscription) {
            return Ok(None);
        }
        match current_timestamp() {
            Ok(timestamp) => Ok(Self::process_event_at(event, subscription, pd_client, timestamp)),
            Err(e) => Err(e),
        }
    }

    /// The trigger requests that `event` calls for on the worker of `plan`:
    /// one for each subscription that the worker serves and the event
    /// satisfies, in the worker's order, each stamped with `timestamp`.
    pub fn alerts_for_at(&self, plan: &WorkerPlan, event: &IncomingEvent, timestamp: &str) -> (r:
        Vec<PagerDutyEvent>)
        ensures
            alerts_view(r@) == alerts_model(
                self.routing_key_text(),
                event@,
                self.config_model().subscriptions,
                plan@.subscriptions,
                timestamp@,
            ),
    {
        let subs = &self.config.subscriptions;
        let ghost models = subscriptions_view(subs@);
        let ghost served = plan@.subscriptions;
        let ghost key = self.routing_key_text();
        let n = plan.subscriptions.len();
        let mut out: Vec<PagerDutyEvent> = Vec::new();
        let ghost mut chosen: Seq<int> = Seq::empty();
        let mut i: usize = 0;
        proof {
            assert(served.take(0) =~= Seq::empty());
        }
        while i < n
            invariant
                i <= n,
                n == plan.subscriptions.len(),
                subs == &self.config.subscriptions,
                models == subscriptions_view(subs@),
                served == plan@.subscriptions,
                key == self.routing_key_text(),
                key == self.pd_client.routing_key_text(),
                chosen == alert_positions(event@, models, served.take(i as int)),
                out.len() == chosen.len(),
                forall|k: int|
                    0 <= k < chosen.len() ==> 0 <= #[trigger] chosen[k] < models.len(),
                forall|k: int|
                    0 <= k < out.len() ==> (#[trigger] out@[k])@ == alert_model(
                        key,
                        event@,
                        models[chosen[k]],
                        timestamp@,
                    ),
            decreases n - i,
        {
            let p = plan.subscriptions[i];
            proof {
                let upto = served.take(i + 1);
                assert(upto.drop_last() =~= served.take(i as int));
                assert(upto.last() == p as int);
            }
            if p < subs.len() {
                assert(models[p as int] == subs@[p as int]@);
                match Self::process_event_at(event, &subs[p], &self.pd_client, timestamp.to_string()) {
                    Some(alert) => {
                        out.push(alert);
                        proof {
                            chosen = chosen.push(p as int);
                        }
                    },
                    None => {},
                }
            }
            i = i + 1;
        }
        proof {
            assert(served.take(n as int) =~= served);
            assert(alerts_view(out@) =~= chosen.map_values(
                |p: int| alert_model(key, event@, models[p], timestamp@),
            ));
        }
        out
    }

    /// Whether `event` satisfies any subscription that the worker of `plan`
    /// serves.
    pub fn any_served_match(&self, plan: &WorkerPlan, event: &IncomingEvent) -> (r: bool)
        ensures
            r == (alert_positions(
                event@,
                self.config_model().subscriptions,
                plan@.subscriptions,
            ).len() > 0),
    {
        let subs = &self.config.subscriptions;
        let ghost models = subscriptions_view(subs@);
        let ghost served = plan@.subscriptions;
        let n = plan.subscriptions.len();
        let mut i: usize = 0;
        proof {
            assert(served.take(0) =~= Seq::empty());
        }
        while i < n
            invariant
                i <= n,
                n == plan.subscriptions.len(),
                subs == &self.config.subscriptions,
                models == subscriptions_view(subs@),
                served == plan@.subscriptions,
                alert_positions(event@, models, served.take(i as int)).len() == 0,
            decreases n - i,
        {
            let p = plan.subscriptions[i];
            proof {
                let upto = served.take(i + 1);
                assert(upto.drop_last() =~= served.take(i as int));
                assert(upto.last() == p as int);
            }
            if p < subs.len() {
                assert(models[p as int] == subs@[p as int]@);
                if event_matches(event, &subs[p]) {
                    proof {
                        lemma_alert_positions_grow(event@, models, served, i + 1);
                    }
                    return true;
                }
            }
            i = i + 1;
        }
        proof {
            assert(served.take(n as int) =~= served);
        }
        false
    }

    /// The trigger requests that `event` calls for on the worker of `plan`,
    /// at the time at which the event is handled. An event that satisfies
    /// none of the served subscriptions calls for none, and the clock is not
    /// read. Otherwise the requests are those that [`Self::alerts_for_at`]
    /// builds for the one timestamp they all carry, or, where the clock
    /// cannot be read, there are none.
    pub fn alerts_for(&self, plan: &WorkerPlan, event: &IncomingEvent) -> (r: Result<
        Vec<PagerDutyEvent>,
        DispatchError,
    >)
        ensures
            alert_positions(event@, self.config_model().subscriptions, plan@.subscriptions).len()
                == 0 ==> (r matches Ok(alerts) && alerts.len() == 0),
            r matches Ok(alerts) ==> alerts_view(alerts@) == alerts_model(
                self.routing_key_text(),
                event@,
                self.config_model().subscriptions,
                plan@.subscriptions,
                common_stamp(alerts@),
            ) && (alerts.len() > 0 ==> is_utc_timestamp(common_stamp(alerts@))),
            r matches Err(e) ==> e is ClockUnreadable,
    {
        let ghost key = self.routing_key_text();
        let ghost models = self.config_model().subscriptions;
        let ghost served = plan@.subscriptions;
        if !self.any_served_match(plan, event) {
            let none: Vec<PagerDutyEvent> = Vec::new();
            assert(alerts_view(none@) =~= alerts_model(
                key,
                event@,
                models,
                served,
                common_stamp(none@),
            ));
            return Ok(none);
        }
        match current_timestamp() {
            Ok(timestamp) => {
                let alerts = self.alerts_for_at(plan, event, timestamp.as_str());
                proof {
                    let built = alerts_model(key, event@, models, served, timestamp@);
                    assert(alerts_view(alerts@) == built);
                    assert(alerts.len() == built.len());
                    assert(alerts.len() > 0);
                    assert(alerts_view(alerts@)[0] == alerts@[0]@);
                    assert(built[0].timestamp == timestamp@);
                    assert(common_stamp(alerts@) == timestamp@);
                }
                Ok(alerts)
            },
            Err(e) => Err(e),
        }
    }
}

/// A served position that the event satisfies stays among the alert
/// positions however many more positions are served.
pub proof fn lemma_alert_positions_grow(
    event: EventModel,
    subscriptions: Seq<SubscriptionModel>,
    served: Seq<int>,
    upto: int,
)
    requires
        0 <= upto <= served.len(),
        alert_positions(event, subscriptions, served.take(upto)).len() > 0,
    ensures
        alert_positions(event, subscriptions, served).len() > 0,
    decreases served.len() - upto,
{
    if upto < served.len() {
        let next = served.take(upto + 1);
        assert(next.drop_last() =~= served.take(upto));
        lemma_alert_positions_grow(event, subscriptions, served, upto + 1);
    } else {
        assert(served.take(upto) =~= served);
    }
}

/// Whether `items` holds a string with the characters of `wanted`.
pub fn contains_text(items: &Vec<String>, wanted: &str) -> (r: bool)
    ensures
        r == each_text(items@).contains(wanted@),
{
    let ghost all = each_text(items@);
    let mut i: usize = 0;
    while i < items.len()
        invariant
            i <= items.len(),
            all == each_text(items@),
            forall|k: int| 0 <= k < i ==> all[k] != wanted@,
        decreases items.len() - i,
    {
        assert(all[i as int] == items@[i as int]@);
        if same_text(items[i].as_str(), wanted) {
            return true;
        }
        i = i + 1;
    }
    false
}

} // verus!
