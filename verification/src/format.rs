//! The alert summary, the dedup key, the explorer link and the stream URL of
//! an event: each a function of the event and the subscription alone.

use vstd::prelude::*;
use crate::event::{event_entries, method_of, EventModel, IncomingEvent};
use crate::subscription::{EventSubscription, SubscriptionModel};
use crate::template::{
    brace_free_names, field_mapping, lemma_render_every_known, opt_text, render, render_template,
    replacement, sentinel, FieldMap,
};
use crate::text::decimal_digits;
use crate::text::{
    chars_of, join2, join3, push_str_chars, string_of, truncate_chars, truncated,
};
use crate::event::copy_opt;

verus! {

/// The most characters that the paging backend takes in a summary.
pub const SUMMARY_LIMIT: usize = 1024;

/// The summary of an event under a subscription without a summary template:
/// the subscription's name, the account, and the method where the event is a
/// function call.
pub open spec fn default_summary(event: EventModel, subscription: SubscriptionModel) -> Seq<char> {
    subscription.name + ": Action on "@ + replacement(event.account_id) + (match method_of(
        event.payload,
    ) {
        Some(m) => " calling "@ + m,
        None => Seq::empty(),
    })
}

/// The summary of an event under a subscription: the rendered template, or
/// the default summary, cut to the backend's limit.
pub open spec fn summary_text(event: EventModel, subscription: SubscriptionModel) -> Seq<char> {
    truncated(
        match subscription.summary_template {
            Some(t) => render(t, field_mapping(event_entries(event))),
            None => default_summary(event, subscription),
        },
        SUMMARY_LIMIT as nat,
    )
}

/// The dedup key of an event where the subscription has no key template:
/// the transaction, else the receipt, else none.
pub open spec fn default_dedup_key(event: EventModel) -> Option<Seq<char>> {
    if event.tx_hash is Some {
        event.tx_hash
    } else if event.receipt_id is Some {
        event.receipt_id
    } else {
        None
    }
}

/// The dedup key of an event under a subscription.
pub open spec fn dedup_key_text(event: EventModel, subscription: SubscriptionModel) -> Option<
    Seq<char>,
> {
    match subscription.dedup_key_template {
        Some(t) => Some(render(t, field_mapping(event_entries(event)))),
        None => default_dedup_key(event),
    }
}

/// Whether `name` is one of the seven placeholder names that every event
/// other than a log event offers.
pub open spec fn is_recognized(name: Seq<char>) -> bool {
    ||| name == "account_id"@
    ||| name == "method_name"@
    ||| name == "predecessor_id"@
    ||| name == "signer_id"@
    ||| name == "block_height"@
    ||| name == "tx_hash"@
    ||| name == "receipt_id"@
}

/// The field mapping of an event.
pub open spec fn event_mapping(event: EventModel) -> FieldMap {
    field_mapping(event_entries(event))
}

/// The mapping of an event that is no log event knows exactly the seven
/// recognized names, none of which holds a brace, and gives each the
/// event's own value.
pub proof fn lemma_recognized_fields(event: EventModel)
    requires
        !(event.payload is LogEvent),
    ensures
        forall|name: Seq<char>| event_mapping(event).contains_key(name) <==> is_recognized(name),
        forall|name: Seq<char>|
            is_recognized(name) ==> !name.contains('{') && !name.contains('}'),
        brace_free_names(event_mapping(event)),
        event_mapping(event)["account_id"@] == event.account_id,
        event_mapping(event)["method_name"@] == method_of(event.payload),
        event_mapping(event)["predecessor_id"@] == event.predecessor_id,
        event_mapping(event)["signer_id"@] == event.signer_id,
        event_mapping(event)["block_height"@] == (match event.block_height {
            Some(h) => Some(decimal_digits(h)),
            None => None::<Seq<char>>,
        }),
        event_mapping(event)["tx_hash"@] == event.tx_hash,
        event_mapping(event)["receipt_id"@] == event.receipt_id,
{
    reveal_strlit("account_id");
    reveal_strlit("method_name");
    reveal_strlit("predecessor_id");
    reveal_strlit("signer_id");
    reveal_strlit("block_height");
    reveal_strlit("tx_hash");
    reveal_strlit("receipt_id");
    let e0 = event_entries(event);
    let e1 = e0.drop_first();
    let e2 = e1.drop_first();
    let e3 = e2.drop_first();
    let e4 = e3.drop_first();
    let e5 = e4.drop_first();
    let e6 = e5.drop_first();
    let e7 = e6.drop_first();
    assert(e0.len() == 7);
    assert(e7.len() == 0);
    assert(field_mapping(e7) =~= Map::empty());
    assert(field_mapping(e6) == field_mapping(e7).insert(e6[0].0, e6[0].1));
    assert(field_mapping(e5) == field_mapping(e6).insert(e5[0].0, e5[0].1));
    assert(field_mapping(e4) == field_mapping(e5).insert(e4[0].0, e4[0].1));
    assert(field_mapping(e3) == field_mapping(e4).insert(e3[0].0, e3[0].1));
    assert(field_mapping(e2) == field_mapping(e3).insert(e2[0].0, e2[0].1));
    assert(field_mapping(e1) == field_mapping(e2).insert(e1[0].0, e1[0].1));
    assert(field_mapping(e0) == field_mapping(e1).insert(e0[0].0, e0[0].1));
    assert(e6[0] == e0[6] && e5[0] == e0[5] && e4[0] == e0[4] && e3[0] == e0[3] && e2[0] == e0[2]
        && e1[0] == e0[1]);
    assert("account_id"@.len() == 10);
    assert("method_name"@.len() == 11);
    assert("predecessor_id"@.len() == 14);
    assert("signer_id"@.len() == 9);
    assert("block_height"@.len() == 12);
    assert("tx_hash"@.len() == 7);
    assert("receipt_id"@.len() == 10);
    assert("account_id"@[0] == 'a' && "receipt_id"@[0] == 'r');
    assert forall|name: Seq<char>| is_recognized(name) implies !name.contains('{')
        && !name.contains('}') by {
        assert forall|i: int| 0 <= i < name.len() implies name[i] != '{' && name[i] != '}' by {}
    }
}

/// In the text of an event that is no log event, every occurrence of a
/// recognized placeholder is replaced, wherever it stands in the template:
/// by the event's value, or by the sentinel where the event has none.
pub proof fn lemma_recognized_placeholder(
    event: EventModel,
    before: Seq<char>,
    name: Seq<char>,
    after: Seq<char>,
)
    requires
        !(event.payload is LogEvent),
        is_recognized(name),
    ensures
        render(before + seq!['{'] + name + seq!['}'] + after, event_mapping(event)) == render(
            before,
            event_mapping(event),
        ) + replacement(event_mapping(event)[name]) + render(after, event_mapping(event)),
        event_mapping(event)[name] is None ==> render(
            before + seq!['{'] + name + seq!['}'] + after,
            event_mapping(event),
        ) == render(before, event_mapping(event)) + sentinel() + render(
            after,
            event_mapping(event),
        ),
{
    lemma_recognized_fields(event);
    lemma_render_every_known(before, name, after, event_mapping(event));
}

/// The summary never runs over the backend's limit.
pub proof fn lemma_summary_bounded(event: EventModel, subscription: SubscriptionModel)
    ensures
        summary_text(event, subscription).len() <= SUMMARY_LIMIT,
{
}

/// Formatting has no hidden state: events and subscriptions that hold the
/// same values get the same summary and the same dedup key.
pub proof fn lemma_formatting_deterministic(
    first_event: IncomingEvent,
    first_subscription: EventSubscription,
    second_event: IncomingEvent,
    second_subscription: EventSubscription,
)
    requires
        first_event@ == second_event@,
        first_subscription@ == second_subscription@,
    ensures
        summary_text(first_event@, first_subscription@) == summary_text(
            second_event@,
            second_subscription@,
        ),
        dedup_key_text(first_event@, first_subscription@) == dedup_key_text(
            second_event@,
            second_subscription@,
        ),
{
}

/// Writes the alert summary of `event` under `subscription`.
pub fn format_summary(event: &IncomingEvent, subscription: &EventSubscription) -> (r: String)
    ensures
        r@ == summary_text(event@, subscription@),
        r@.len() <= SUMMARY_LIMIT,
{
    let full = match &subscription.summary_template {
        Some(template) => {
            let fields = event.template_fields();
            render_template(template.as_str(), &fields)
        },
        None => {
            let mut v = chars_of(subscription.name.as_str());
            push_str_chars(&mut v, ": Action on ");
            match &event.account_id {
                Some(a) => {
                    push_str_chars(&mut v, a.as_str());
                },
                None => {
                    push_str_chars(&mut v, "unknown");
                    proof {
                        reveal_strlit("unknown");
                        assert("unknown"@ =~= crate::template::sentinel());
                    }
                },
            }
            let ghost head = v@;
            match event.method_name() {
                Some(m) => {
                    push_str_chars(&mut v, " calling ");
                    push_str_chars(&mut v, m.as_str());
                    assert(v@ =~= head + (" calling "@ + m@));
                },
                None => {
                    assert(v@ =~= head + Seq::<char>::empty());
                },
            }
            string_of(&v)
        },
    };
    truncate_chars(full.as_str(), SUMMARY_LIMIT)
}

/// Derives the dedup key of `event` under `subscription`.
pub fn format_dedup_key(event: &IncomingEvent, subscription: &EventSubscription) -> (r: Option<
    String,
>)
    ensures
        opt_text(r) == dedup_key_text(event@, subscription@),
        subscription@.dedup_key_template is None ==> opt_text(r) == default_dedup_key(event@),
{
    match &subscription.dedup_key_template {
        Some(template) => {
            let fields = event.template_fields();
            Some(render_template(template.as_str(), &fields))
        },
        None => {
            if event.tx_hash.is_some() {
                copy_opt(&event.tx_hash)
            } else {
                copy_opt(&event.receipt_id)
            }
        },
    }
}

/// The address of the block explorer for the chosen network.
pub open spec fn explorer_base(testnet: bool) -> Seq<char> {
    if testnet {
        "https://testnet.nearblocks.io"@
    } else {
        "https://nearblocks.io"@
    }
}

/// The most specific explorer page for an event, as address and label: the
/// transaction's page where the event names a transaction, else the
/// account's page where it names an account, else none.
pub open spec fn explorer_link(event: EventModel, testnet: bool) -> Option<(Seq<char>, Seq<char>)> {
    match event.tx_hash {
        Some(tx) => Some((explorer_base(testnet) + "/txns/"@ + tx, "View Transaction"@)),
        None => match event.account_id {
            Some(account) => Some(
                (explorer_base(testnet) + "/address/"@ + account, "View Contract"@),
            ),
            None => None,
        },
    }
}

/// The plain form of an optional link.
pub open spec fn link_view(link: Option<(String, String)>) -> Option<(Seq<char>, Seq<char>)> {
    match link {
        Some((href, text)) => Some((href@, text@)),
        None => None,
    }
}

/// Picks the explorer page to attach to the alert of `event`.
pub fn get_explorer_link(event: &IncomingEvent, testnet: bool) -> (r: Option<(String, String)>)
    ensures
        link_view(r) == explorer_link(event@, testnet),
{
    let base = if testnet {
        "https://testnet.nearblocks.io"
    } else {
        "https://nearblocks.io"
    };
    match &event.tx_hash {
        Some(tx) => Some((join3(base, "/txns/", tx.as_str()), "View Transaction".to_string())),
        None => match &event.account_id {
            Some(account) => Some(
                (join3(base, "/address/", account.as_str()), "View Contract".to_string()),
            ),
            None => None,
        },
    }
}

/// The address of the event feed for one event type.
pub open spec fn ws_url(event_type: Seq<char>, testnet: bool) -> Seq<char> {
    (if testnet {
        "wss://ws-events-v3-testnet.intear.tech/events"@
    } else {
        "wss://ws-events-v3.intear.tech/events"@
    }) + "/"@ + event_type
}

/// Builds the address of the event feed for `event_type`.
pub fn get_ws_url(event_type: &str, testnet: bool) -> (r: String)
    ensures
        r@ == ws_url(event_type@, testnet),
{
    let base = if testnet {
        "wss://ws-events-v3-testnet.intear.tech/events"
    } else {
        "wss://ws-events-v3.intear.tech/events"
    };
    join3(base, "/", event_type)
}

/// The source label of an alert: `near:` and the account, or the sentinel
/// where the event names no account.
pub open spec fn source_label(event: EventModel) -> Seq<char> {
    "near:"@ + replacement(event.account_id)
}

/// Writes the source label of the alert of `event`.
pub fn format_source(event: &IncomingEvent) -> (r: String)
    ensures
        r@ == source_label(event@),
{
    match &event.account_id {
        Some(a) => join2("near:", a.as_str()),
        None => {
            proof {
                reveal_strlit("unknown");
                assert("unknown"@ =~= crate::template::sentinel());
            }
            join2("near:", "unknown")
        },
    }
}

} // verus!
