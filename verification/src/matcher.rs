//! The decision whether an event concerns a subscription.

use vstd::prelude::*;
use crate::event::{method_of, EventModel, IncomingEvent, ActionPayload};
use crate::subscription::{
    subscriptions_view, EventSubscription, SelectorModel, SourceSelector, SubscriptionModel,
};
use crate::text::same_text;

verus! {

/// Whether `event` satisfies `subscription`.
///
/// On the account-activity feed the event must be on the subscription's
/// account and, where the subscription names a method, must be a call of
/// exactly that method. On the event feed the upstream has filtered already,
/// so every event that arrives matches.
pub open spec fn matches(event: EventModel, subscription: SubscriptionModel) -> bool {
    match subscription.source {
        SelectorModel::AccountActivity { account_id, method_name } => {
            &&& event.account_id == Some(account_id)
            &&& (method_name is None || (event.payload is FunctionCall && method_of(event.payload)
                == method_name))
        },
        SelectorModel::EventFeed { .. } => true,
    }
}

/// Decides whether `event` satisfies `subscription`.
pub fn event_matches(event: &IncomingEvent, subscription: &EventSubscription) -> (r: bool)
    ensures
        r == matches(event@, subscription@),
{
    match &subscription.source {
        SourceSelector::AccountActivity { account_id, method_name } => {
            let on_account = match &event.account_id {
                Some(a) => same_text(a.as_str(), account_id.as_str()),
                None => false,
            };
            if !on_account {
                return false;
            }
            match method_name {
                None => true,
                Some(wanted) => match &event.payload {
                    ActionPayload::FunctionCall { method_name } => same_text(
                        method_name.as_str(),
                        wanted.as_str(),
                    ),
                    _ => false,
                },
            }
        },
        SourceSelector::EventFeed { .. } => true,
    }
}

/// The positions in `subscriptions`, from `from` on and in rising order, of
/// those that `event` satisfies.
pub open spec fn matching_from(
    event: EventModel,
    subscriptions: Seq<SubscriptionModel>,
    from: int,
) -> Seq<int>
    decreases subscriptions.len() - from,
{
    if from < 0 || from >= subscriptions.len() {
        Seq::empty()
    } else if matches(event, subscriptions[from]) {
        seq![from] + matching_from(event, subscriptions, from + 1)
    } else {
        matching_from(event, subscriptions, from + 1)
    }
}

/// The positions, in rising order, of the subscriptions that `event`
/// satisfies. Each is judged on its own: an event may satisfy none, one or
/// several.
pub open spec fn matching_positions(
    event: EventModel,
    subscriptions: Seq<SubscriptionModel>,
) -> Seq<int> {
    matching_from(event, subscriptions, 0)
}

/// `matching_from` lists exactly the satisfied positions, each once, rising.
pub proof fn lemma_matching_from(
    event: EventModel,
    subscriptions: Seq<SubscriptionModel>,
    from: int,
)
    requires
        0 <= from,
    ensures
        forall|k: int|
            0 <= k < matching_from(event, subscriptions, from).len() ==> from <= (
            #[trigger] matching_from(event, subscriptions, from)[k]) < subscriptions.len()
                && matches(event, subscriptions[matching_from(event, subscriptions, from)[k]]),
        forall|j: int, k: int|
            0 <= j < k < matching_from(event, subscriptions, from).len() ==> matching_from(
                event,
                subscriptions,
                from,
            )[j] < matching_from(event, subscriptions, from)[k],
        forall|i: int|
            from <= i < subscriptions.len() && matches(event, subscriptions[i])
                ==> matching_from(event, subscriptions, from).contains(i),
    decreases subscriptions.len() - from,
{
    if from < subscriptions.len() {
        lemma_matching_from(event, subscriptions, from + 1);
        let rest = matching_from(event, subscriptions, from + 1);
        let all = matching_from(event, subscriptions, from);
        if matches(event, subscriptions[from]) {
            assert(all =~= seq![from] + rest);
            assert forall|k: int| 0 <= k < all.len() implies from <= (#[trigger] all[k])
                < subscriptions.len() && matches(event, subscriptions[all[k]]) by {
                if k > 0 {
                    assert(all[k] == rest[k - 1]);
                }
            }
            assert forall|j: int, k: int| 0 <= j < k < all.len() implies all[j] < all[k] by {
                assert(all[k] == rest[k - 1]);
                if j > 0 {
                    assert(all[j] == rest[j - 1]);
                }
            }
            assert forall|i: int|
                from <= i < subscriptions.len() && matches(
                    event,
                    subscriptions[i],
                ) implies all.contains(i) by {
                if i == from {
                    assert(all[0] == from);
                } else {
                    assert(rest.contains(i));
                    let k = choose|k: int| 0 <= k < rest.len() && rest[k] == i;
                    assert(all[k + 1] == i);
                }
            }
        }
    }
}

/// The subscriptions that `event` satisfies: exactly those, each once, in the
/// order of the list.
pub proof fn lemma_matching_positions(event: EventModel, subscriptions: Seq<SubscriptionModel>)
    ensures
        forall|k: int|
            0 <= k < matching_positions(event, subscriptions).len() ==> 0 <= (
            #[trigger] matching_positions(event, subscriptions)[k]) < subscriptions.len()
                && matches(event, subscriptions[matching_positions(event, subscriptions)[k]]),
        forall|j: int, k: int|
            0 <= j < k < matching_positions(event, subscriptions).len() ==> matching_positions(
                event,
                subscriptions,
            )[j] < matching_positions(event, subscriptions)[k],
        forall|i: int|
            0 <= i < subscriptions.len() && matches(event, subscriptions[i])
                ==> matching_positions(event, subscriptions).contains(i),
{
    lemma_matching_from(event, subscriptions, 0);
}

/// Finds the subscriptions that `event` satisfies.
pub fn matching_subscriptions(event: &IncomingEvent, subscriptions: &Vec<EventSubscription>) -> (r:
    Vec<usize>)
    ensures
        r@.map_values(|i: usize| i as int) == matching_positions(
            event@,
            subscriptions_view(subscriptions@),
        ),
{
    let ghost subs = subscriptions_view(subscriptions@);
    let n = subscriptions.len();
    let mut out: Vec<usize> = Vec::new();
    let mut i: usize = 0;
    proof {
        assert(out@.map_values(|i: usize| i as int) + matching_from(event@, subs, 0)
            =~= matching_positions(event@, subs));
    }
    while i < n
        invariant
            n == subscriptions.len(),
            i <= n,
            subs == subscriptions_view(subscriptions@),
            out@.map_values(|i: usize| i as int) + matching_from(event@, subs, i as int)
                == matching_positions(event@, subs),
        decreases n - i,
    {
        let ghost before = out@.map_values(|i: usize| i as int);
        assert(subs[i as int] == subscriptions@[i as int]@);
        if event_matches(event, &subscriptions[i]) {
            out.push(i);
            proof {
                assert(out@.map_values(|i: usize| i as int) =~= before.push(i as int));
                assert(before.push(i as int) + matching_from(event@, subs, i + 1) =~= before + (
                seq![i as int] + matching_from(event@, subs, i + 1)));
            }
        }
        i = i + 1;
    }
    proof {
        assert(out@.map_values(|i: usize| i as int) + Seq::<int>::empty()
            =~= out@.map_values(|i: usize| i as int));
    }
    out
}

} // verus!
