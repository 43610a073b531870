//! Requests to the paging backend and the reading of its replies.
//!
//! The client here is stateless: it builds the request that is to be sent
//! and judges the reply that came back. Sending is the caller's part, and
//! nothing is retried.

use vstd::prelude::*;
use crate::format::SUMMARY_LIMIT;
use crate::event::{EventModel, IncomingEvent};
use crate::template::opt_text;
use crate::text::{same_text, truncate_chars, truncated};

verus! {

/// The lifecycle step that a request asks for.
#[derive(Clone, Copy, Debug, PartialEq, Eq, Structural)]
pub enum EventAction {
    Trigger,
    Acknowledge,
    Resolve,
}

/// The name under which the paging backend knows a lifecycle step.
pub open spec fn action_text(action: EventAction) -> Seq<char> {
    match action {
        EventAction::Trigger => "trigger"@,
        EventAction::Acknowledge => "acknowledge"@,
        EventAction::Resolve => "resolve"@,
    }
}

impl EventAction {
    /// The name under which the paging backend knows this step.
    pub fn as_string(&self) -> (r: String)
        ensures
            r@ == action_text(*self),
    {
        match self {
            EventAction::Trigger => "trigger".to_string(),
            EventAction::Acknowledge => "acknowledge".to_string(),
            EventAction::Resolve => "resolve".to_string(),
        }
    }
}

/// A reference link of an alert.
#[derive(Clone, Debug, PartialEq, Eq)]
pub struct PagerDutyLink {
    pub href: String,
    pub text: String,
}

/// The structured details of an alert.
#[derive(Clone, Debug, PartialEq, Eq)]
pub struct AlertDetails {
    pub subscription_name: String,
    /// The event type of an event-feed subscription.
    pub event_type: Option<String>,
    /// The event that raised the alert, as it was matched.
    pub event: IncomingEvent,
}

/// The plain form of [`AlertDetails`].
pub struct DetailsModel {
    pub subscription_name: Seq<char>,
    pub event_type: Option<Seq<char>>,
    pub event: EventModel,
}

impl View for AlertDetails {
    type V = DetailsModel;

    open spec fn view(&self) -> DetailsModel {
        DetailsModel {
            subscription_name: self.subscription_name@,
            event_type: opt_text(self.event_type),
            event: self.event@,
        }
    }
}

/// The plain form of optional details.
pub open spec fn details_view(d: Option<AlertDetails>) -> Option<DetailsModel> {
    match d {
        Some(x) => Some(x@),
        None => None,
    }
}

/// What an alert says.
#[derive(Clone, Debug, PartialEq, Eq)]
pub struct PagerDutyPayload {
    pub summary: String,
    pub source: String,
    pub severity: String,
    pub timestamp: String,
    pub custom_details: Option<AlertDetails>,
}

/// A trigger request, as the backend's body names its parts.
#[derive(Clone, Debug, PartialEq, Eq)]
pub struct PagerDutyEvent {
    pub routing_key: String,
    pub event_action: String,
    pub dedup_key: Option<String>,
    pub payload: PagerDutyPayload,
    pub links: Option<Vec<PagerDutyLink>>,
    pub client: String,
    pub client_url: String,
}

/// The plain form of a [`PagerDutyEvent`].
pub struct TriggerModel {
    pub routing_key: Seq<char>,
    pub event_action: Seq<char>,
    pub dedup_key: Option<Seq<char>>,
    pub summary: Seq<char>,
    pub source: Seq<char>,
    pub severity: Seq<char>,
    pub timestamp: Seq<char>,
    pub custom_details: Option<DetailsModel>,
    /// The links, each as address and label.
    pub links: Option<Seq<(Seq<char>, Seq<char>)>>,
    pub client: Seq<char>,
    pub client_url: Seq<char>,
}

/// The plain form of a list of links.
pub open spec fn links_view(links: Option<Vec<PagerDutyLink>>) -> Option<
    Seq<(Seq<char>, Seq<char>)>,
> {
    match links {
        Some(v) => Some(v@.map_values(|l: PagerDutyLink| (l.href@, l.text@))),
        None => None,
    }
}

impl View for PagerDutyEvent {
    type V = TriggerModel;

    open spec fn view(&self) -> TriggerModel {
        TriggerModel {
            routing_key: self.routing_key@,
            event_action: self.event_action@,
            dedup_key: opt_text(self.dedup_key),
            summary: self.payload.summary@,
            source: self.payload.source@,
            severity: self.payload.severity@,
            timestamp: self.payload.timestamp@,
            custom_details: details_view(self.payload.custom_details),
            links: links_view(self.links),
            client: self.client@,
            client_url: self.client_url@,
        }
    }
}

/// An acknowledge or resolve request.
#[derive(Clone, Debug, PartialEq, Eq)]
pub struct LifecycleEvent {
    pub routing_key: String,
    pub event_action: EventAction,
    pub dedup_key: String,
}

/// The backend's reply.
#[derive(Clone, Debug, PartialEq, Eq)]
pub struct PagerDutyResponse {
    pub status: String,
    pub message: String,
    pub dedup_key: Option<String>,
}

/// Why a call to the backend is not made, or counts as failed.
#[derive(Clone, Debug, PartialEq, Eq)]
pub enum DispatchError {
    /// Acknowledge and resolve need the key of an existing incident.
    EmptyDedupKey,
    /// The system clock shows a moment that cannot be written as a
    /// timestamp: one before 1970, or one beyond the calendar's range.
    ClockUnreadable,
    /// The backend replied with a status other than `success`.
    Rejected { status: String, message: String },
}

/// The address of the paging backend's events interface.
pub const EVENTS_URL: &'static str = "https://events.pagerduty.com/v2/enqueue";

/// The name under which this client introduces itself.
pub open spec fn client_name() -> Seq<char> {
    "NEAR Blockchain Monitor"@
}

/// The address that this client gives for itself.
pub open spec fn client_address() -> Seq<char> {
    "https://explorer.near.org"@
}

/// The links of a trigger request: the one link given, or none.
pub open spec fn single_link(link: Option<(Seq<char>, Seq<char>)>) -> Option<
    Seq<(Seq<char>, Seq<char>)>,
> {
    match link {
        Some(l) => Some(seq![l]),
        None => None,
    }
}

/// The trigger request for the given parts. The summary is cut to the
/// backend's limit; at most one link is attached.
pub open spec fn trigger_model(
    routing_key: Seq<char>,
    summary: Seq<char>,
    source: Seq<char>,
    severity: Seq<char>,
    dedup_key: Option<Seq<char>>,
    custom_details: Option<DetailsModel>,
    link: Option<(Seq<char>, Seq<char>)>,
    timestamp: Seq<char>,
) -> TriggerModel {
    TriggerModel {
        routing_key,
        event_action: action_text(EventAction::Trigger),
        dedup_key,
        summary: truncated(summary, SUMMARY_LIMIT as nat),
        source,
        severity,
        timestamp,
        custom_details,
        links: single_link(link),
        client: client_name(),
        client_url: client_address(),
    }
}

/// The plain form of an optional borrowed link.
pub open spec fn borrowed_link_view(link: Option<(&str, &str)>) -> Option<(Seq<char>, Seq<char>)> {
    match link {
        Some((href, text)) => Some((href@, text@)),
        None => None,
    }
}

/// Whether `c` is one of the ten digits.
pub open spec fn is_digit(c: char) -> bool {
    '0' <= c <= '9'
}

/// Whether `t` is laid out as an RFC 3339 timestamp in UTC with a year of
/// `year_len` characters and a fraction of `fraction_len` characters (its
/// point included): year, month, day, `T`, hour, minute, second, fraction,
/// and the offset `+00:00`.
pub open spec fn timestamp_layout(t: Seq<char>, year_len: int, fraction_len: int) -> bool {
    let y = year_len;
    &&& y >= 4
    &&& (fraction_len == 0 || fraction_len == 4 || fraction_len == 7 || fraction_len == 10)
    &&& t.len() == y + 15 + fraction_len + 6
    &&& t[y] == '-' && is_digit(t[y + 1]) && is_digit(t[y + 2])
    &&& t[y + 3] == '-' && is_digit(t[y + 4]) && is_digit(t[y + 5])
    &&& t[y + 6] == 'T' && is_digit(t[y + 7]) && is_digit(t[y + 8])
    &&& t[y + 9] == ':' && is_digit(t[y + 10]) && is_digit(t[y + 11])
    &&& t[y + 12] == ':' && is_digit(t[y + 13]) && is_digit(t[y + 14])
    &&& (fraction_len > 0 ==> t[y + 15] == '.')
    &&& t.subrange(t.len() - 6, t.len() as int) == seq!['+', '0', '0', ':', '0', '0']
}

/// Whether `t` has the shape of an RFC 3339 timestamp in UTC: a year of at
/// least four characters, then `-MM-DDTHH:MM:SS`, then no fraction or one of
/// three, six or nine digits, then `+00:00`.
pub open spec fn is_utc_timestamp(t: Seq<char>) -> bool {
    exists|year_len: int, fraction_len: int| timestamp_layout(t, year_len, fraction_len)
}

/// Reads the system clock: the whole seconds and the nanoseconds beyond
/// them that have passed since the Unix epoch.
///
/// Trusted: calls `std::time::SystemTime::now` and takes its distance from
/// `UNIX_EPOCH` by `duration_since`, as `as_secs` and `subsec_nanos`.
/// `None` where the clock shows a moment before the epoch. The reading
/// differs from call to call, so nothing is claimed of it.
#[verifier::external_body]
pub(crate) fn clock_reading() -> Option<(u64, u32)> {
    let since = std::time::SystemTime::now().duration_since(std::time::UNIX_EPOCH).ok()?;
    Some((since.as_secs(), since.subsec_nanos()))
}

/// The RFC 3339 text of the moment that lies `seconds` and `nanos`
/// nanoseconds after the Unix epoch; `None` where the calendar has no such
/// moment.
pub uninterp spec fn rfc3339_text(seconds: i64, nanos: u32) -> Option<Seq<char>>;

/// Writes the moment that lies `seconds` and `nanos` nanoseconds after the
/// Unix epoch as an RFC 3339 timestamp in UTC.
///
/// Trusted: calls `chrono::DateTime::from_timestamp`, which refuses what
/// the calendar cannot hold, and `DateTime::to_rfc3339`. The contract
/// claims that the outcome is a function of the two numbers, and of the
/// text the layout that `to_rfc3339` gives every moment in UTC.
#[verifier::external_body]
pub(crate) fn write_timestamp(seconds: i64, nanos: u32) -> (r: Option<String>)
    ensures
        r is Some <==> rfc3339_text(seconds, nanos) is Some,
        r matches Some(t) ==> t@ == rfc3339_text(seconds, nanos).unwrap() && is_utc_timestamp(t@),
{
    chrono::DateTime::from_timestamp(seconds, nanos).map(|moment| moment.to_rfc3339())
}

/// The timestamp of a clock reading: the text of its moment, where the
/// seconds fit the calendar's counter and the calendar holds the moment.
pub open spec fn timestamp_of(seconds: u64, nanos: u32) -> Option<Seq<char>> {
    if seconds <= i64::MAX {
        rfc3339_text(seconds as i64, nanos)
    } else {
        None
    }
}

/// Writes the timestamp of a clock reading.
pub fn timestamp_at(seconds: u64, nanos: u32) -> (r: Result<String, DispatchError>)
    ensures
        match timestamp_of(seconds, nanos) {
            Some(t) => r is Ok && r->Ok_0@ == t && is_utc_timestamp(t),
            None => r is Err && r->Err_0 is ClockUnreadable,
        },
{
    if seconds > 0x7fff_ffff_ffff_ffff {
        return Err(DispatchError::ClockUnreadable);
    }
    match write_timestamp(seconds as i64, nanos) {
        Some(t) => Ok(t),
        None => Err(DispatchError::ClockUnreadable),
    }
}

/// Reads the clock and writes the moment as an RFC 3339 timestamp in UTC.
/// What the clock shows decides the text; where it shows a moment before
/// 1970 or beyond the calendar, there is none.
pub fn current_timestamp() -> (r: Result<String, DispatchError>)
    ensures
        r matches Ok(t) ==> is_utc_timestamp(t@),
        r matches Err(e) ==> e is ClockUnreadable,
{
    match clock_reading() {
        Some((seconds, nanos)) => timestamp_at(seconds, nanos),
        None => Err(DispatchError::ClockUnreadable),
    }
}

/// The client of the paging backend's events interface.
pub struct PagerDutyClient {
    routing_key: String,
}

impl PagerDutyClient {
    /// A client that sends under `routing_key`.
    pub fn new(routing_key: String) -> (r: Self)
        ensures
            r.routing_key_text() == routing_key@,
    {
        PagerDutyClient { routing_key }
    }

    /// The routing key that this client sends under.
    pub closed spec fn routing_key_text(&self) -> Seq<char> {
        self.routing_key@
    }

    /// The routing key that this client sends under.
    pub fn routing_key(&self) -> (r: String)
        ensures
            r@ == self.routing_key_text(),
    {
        self.routing_key.clone()
    }

    /// Builds the trigger request for an alert, stamped with `timestamp`.
    pub fn trigger_at(
        &self,
        summary: &str,
        source: &str,
        severity: &str,
        dedup_key: Option<String>,
        custom_details: Option<AlertDetails>,
        explorer_link: Option<(&str, &str)>,
        timestamp: String,
    ) -> (r: PagerDutyEvent)
        ensures
            r@ == trigger_model(
                self.routing_key_text(),
                summary@,
                source@,
                severity@,
                opt_text(dedup_key),
                details_view(custom_details),
                borrowed_link_view(explorer_link),
                timestamp@,
            ),
            r@.summary.len() <= SUMMARY_LIMIT,
    {
        let links = match explorer_link {
            Some((href, text)) => {
                let mut v: Vec<PagerDutyLink> = Vec::new();
                v.push(PagerDutyLink { href: href.to_string(), text: text.to_string() });
                assert(v@.map_values(|l: PagerDutyLink| (l.href@, l.text@)) =~= seq![
                    (href@, text@),
                ]);
                Some(v)
            },
            None => None,
        };
        PagerDutyEvent {
            routing_key: self.routing_key.clone(),
            event_action: EventAction::Trigger.as_string(),
            dedup_key,
            payload: PagerDutyPayload {
                summary: truncate_chars(summary, SUMMARY_LIMIT),
                source: source.to_string(),
                severity: severity.to_string(),
                timestamp,
                custom_details,
            },
            links,
            client: "NEAR Blockchain Monitor".to_string(),
            client_url: "https://explorer.near.org".to_string(),
        }
    }

    /// Builds the trigger request for an alert, stamped with the current
    /// time. The request is the one that [`Self::trigger_at`] builds for the
    /// timestamp it carries. Where the clock cannot be read, no request is
    /// built.
    pub fn trigger(
        &self,
        summary: &str,
        source: &str,
        severity: &str,
        dedup_key: Option<String>,
        custom_details: Option<AlertDetails>,
        explorer_link: Option<(&str, &str)>,
    ) -> (r: Result<PagerDutyEvent, DispatchError>)
        ensures
            r matches Ok(event) ==> event@ == trigger_model(
                self.routing_key_text(),
                summary@,
                source@,
                severity@,
                opt_text(dedup_key),
                details_view(custom_details),
                borrowed_link_view(explorer_link),
                event@.timestamp,
            ) && is_utc_timestamp(event@.timestamp) && event@.summary.len() <= SUMMARY_LIMIT,
            r matches Err(e) ==> e is ClockUnreadable,
    {
        match current_timestamp() {
            Ok(timestamp) => Ok(
                self.trigger_at(
                    summary,
                    source,
                    severity,
                    dedup_key,
                    custom_details,
                    explorer_link,
                    timestamp,
                ),
            ),
            Err(e) => Err(e),
        }
    }

    /// Builds the request for one lifecycle step on an existing incident.
    fn lifecycle(&self, action: EventAction, dedup_key: &str) -> (r: Result<
        LifecycleEvent,
        DispatchError,
    >)
        ensures
            dedup_key@.len() == 0 ==> r is Err && r->Err_0 is EmptyDedupKey,
            dedup_key@.len() > 0 ==> r is Ok && r->Ok_0.routing_key@ == self.routing_key_text()
                && r->Ok_0.event_action == action && r->Ok_0.dedup_key@ == dedup_key@,
    {
        if dedup_key.is_empty() {
            Err(DispatchError::EmptyDedupKey)
        } else {
            Ok(
                LifecycleEvent {
                    routing_key: self.routing_key.clone(),
                    event_action: action,
                    dedup_key: dedup_key.to_string(),
                },
            )
        }
    }

    /// Builds the request that acknowledges the incident under `dedup_key`.
    /// An empty key is refused; any other key is accepted, whatever became of
    /// the incident.
    pub fn acknowledge(&self, dedup_key: &str) -> (r: Result<LifecycleEvent, DispatchError>)
        ensures
            dedup_key@.len() == 0 ==> r is Err && r->Err_0 is EmptyDedupKey,
            dedup_key@.len() > 0 ==> r is Ok && r->Ok_0.routing_key@ == self.routing_key_text()
                && r->Ok_0.event_action == EventAction::Acknowledge && r->Ok_0.dedup_key@
                == dedup_key@,
    {
        self.lifecycle(EventAction::Acknowledge, dedup_key)
    }

    /// Builds the request that resolves the incident under `dedup_key`.
    /// An empty key is refused; any other key is accepted, whatever became of
    /// the incident.
    pub fn resolve(&self, dedup_key: &str) -> (r: Result<LifecycleEvent, DispatchError>)
        ensures
            dedup_key@.len() == 0 ==> r is Err && r->Err_0 is EmptyDedupKey,
            dedup_key@.len() > 0 ==> r is Ok && r->Ok_0.routing_key@ == self.routing_key_text()
                && r->Ok_0.event_action == EventAction::Resolve && r->Ok_0.dedup_key@
                == dedup_key@,
    {
        self.lifecycle(EventAction::Resolve, dedup_key)
    }
}

/// Judges the backend's reply: a reply with status `success` is handed on
/// as it came, any other is an error that carries its status and message.
pub fn check_response(response: PagerDutyResponse) -> (r: Result<PagerDutyResponse, DispatchError>)
    ensures
        response.status@ == "success"@ ==> r == Ok::<PagerDutyResponse, DispatchError>(response),
        response.status@ != "success"@ ==> r is Err && (r->Err_0 matches DispatchError::Rejected {
            status,
            message,
        } && status@ == response.status@ && message@ == response.message@),
{
    if same_text(response.status.as_str(), "success") {
        Ok(response)
    } else {
        Err(
            DispatchError::Rejected {
                status: response.status.clone(),
                message: response.message.clone(),
            },
        )
    }
}

} // verus!
