//! What one request does, from its first step to its answer, and how often
//! it calls on the store and on the upstream provider.

use crate::handler::{first_step, next_step, ActionView, EventView, PendingView};
use crate::key::{lower, CACHE_TTL_SECONDS};
use crate::record::WeatherView;
use crate::reply::StoreValueView;
use crate::upstream::request_url;
use vstd::prelude::*;

verus! {

/// The actions that a request waiting as `pending` takes while `events` are
/// reported to it, one action for each event until the request has ended.
pub open spec fn run_from(pending: Option<PendingView>, events: Seq<EventView>) -> Seq<ActionView>
    decreases events.len(),
{
    if pending is None || events.len() == 0 {
        Seq::empty()
    } else {
        let step = next_step(pending->0, events[0]);
        seq![step.action] + run_from(step.next, events.drop_first())
    }
}

/// The actions of a request for `city` to which `events` are reported: the
/// lookup, then one action for each event until the request has ended.
pub open spec fn run(city: Seq<char>, api_key: Seq<char>, events: Seq<EventView>) -> Seq<
    ActionView,
> {
    seq![first_step(city, api_key).action] + run_from(first_step(city, api_key).next, events)
}

/// How many of `actions` read the store.
pub open spec fn lookups(actions: Seq<ActionView>) -> nat
    decreases actions.len(),
{
    if actions.len() == 0 {
        0
    } else {
        (if actions[0] is Lookup {
            1nat
        } else {
            0nat
        }) + lookups(actions.drop_first())
    }
}

/// How many of `actions` call the upstream provider.
pub open spec fn fetches(actions: Seq<ActionView>) -> nat
    decreases actions.len(),
{
    if actions.len() == 0 {
        0
    } else {
        (if actions[0] is Fetch {
            1nat
        } else {
            0nat
        }) + fetches(actions.drop_first())
    }
}

/// How many of `actions` write to the store.
pub open spec fn stores(actions: Seq<ActionView>) -> nat
    decreases actions.len(),
{
    if actions.len() == 0 {
        0
    } else {
        (if actions[0] is Store {
            1nat
        } else {
            0nat
        }) + stores(actions.drop_first())
    }
}

/// The counts of a sequence that begins with `first`.
proof fn lemma_counts_push_front(first: ActionView, rest: Seq<ActionView>)
    ensures
        lookups(seq![first] + rest) == lookups(seq![first]) + lookups(rest),
        fetches(seq![first] + rest) == fetches(seq![first]) + fetches(rest),
        stores(seq![first] + rest) == stores(seq![first]) + stores(rest),
        lookups(seq![first]) == if first is Lookup { 1nat } else { 0nat },
        fetches(seq![first]) == if first is Fetch { 1nat } else { 0nat },
        stores(seq![first]) == if first is Store { 1nat } else { 0nat },
{
    assert((seq![first] + rest).drop_first() =~= rest);
    assert(seq![first].drop_first() =~= Seq::<ActionView>::empty());
    reveal_with_fuel(lookups, 2);
    reveal_with_fuel(fetches, 2);
    reveal_with_fuel(stores, 2);
}

/// A request that waits for an event takes its next step on the first one.
pub proof fn lemma_run_from_unfold(pending: PendingView, event: EventView, rest: Seq<EventView>)
    ensures
        run_from(Some(pending), seq![event] + rest) == seq![next_step(pending, event).action]
            + run_from(next_step(pending, event).next, rest),
{
    assert((seq![event] + rest).drop_first() =~= rest);
}

/// Past the lookup a request reads the store no more, and what it still
/// fetches and writes is bounded by what it waits for: after the lookup has
/// been answered it fetches nothing, and it writes at most once, and only
/// while it waits for the upstream record.
pub proof fn lemma_calls_after_lookup(pending: Option<PendingView>, events: Seq<EventView>)
    ensures
        lookups(run_from(pending, events)) == 0,
        fetches(run_from(pending, events)) <= 1,
        stores(run_from(pending, events)) <= 1,
        !(pending matches Some(PendingView::Lookup { .. })) ==> fetches(
            run_from(pending, events),
        ) == 0,
        !(pending matches Some(PendingView::Lookup { .. })) && !(pending matches Some(
            PendingView::Upstream,
        )) ==> stores(run_from(pending, events)) == 0,
    decreases events.len(),
{
    if pending is None || events.len() == 0 {
    } else {
        let step = next_step(pending->0, events[0]);
        lemma_calls_after_lookup(step.next, events.drop_first());
        lemma_counts_push_front(step.action, run_from(step.next, events.drop_first()));
    }
}

/// Whatever is reported to it, a request reads the store exactly once, at
/// its start, calls the upstream provider at most once and writes to the
/// store at most once, and it never writes without having fetched.
pub proof fn lemma_calls_at_most_once(city: Seq<char>, api_key: Seq<char>, events: Seq<EventView>)
    ensures
        lookups(run(city, api_key, events)) == 1,
        fetches(run(city, api_key, events)) <= 1,
        stores(run(city, api_key, events)) <= fetches(run(city, api_key, events)),
{
    let first = first_step(city, api_key);
    lemma_counts_push_front(first.action, run_from(first.next, events));
    lemma_calls_after_lookup(first.next, events);
    if events.len() > 0 {
        let step = next_step(first.next->0, events[0]);
        lemma_calls_after_lookup(step.next, events.drop_first());
        lemma_counts_push_front(step.action, run_from(step.next, events.drop_first()));
    }
}

/// Every write of a request is made under the lower-cased place name of the
/// record that it holds, and with the fixed expiration.
pub proof fn lemma_writes_expire(
    city: Seq<char>,
    api_key: Seq<char>,
    events: Seq<EventView>,
    i: int,
)
    requires
        0 <= i < run(city, api_key, events).len(),
    ensures
        run(city, api_key, events)[i] matches ActionView::Store { key, record, seconds } ==> key
            == lower(record.location.name) && seconds == CACHE_TTL_SECONDS,
{
    if i > 0 {
        lemma_writes_expire_from(first_step(city, api_key).next, events, i - 1);
    }
}

/// Past the lookup, too, every write has the key of its record and the fixed
/// expiration.
proof fn lemma_writes_expire_from(pending: Option<PendingView>, events: Seq<EventView>, i: int)
    requires
        0 <= i < run_from(pending, events).len(),
    ensures
        run_from(pending, events)[i] matches ActionView::Store { key, record, seconds } ==> key
            == lower(record.location.name) && seconds == CACHE_TTL_SECONDS,
    decreases events.len(),
{
    if i > 0 {
        let step = next_step(pending->0, events[0]);
        lemma_writes_expire_from(step.next, events.drop_first(), i - 1);
    }
}

/// A step ends the request exactly when it answers it.
pub proof fn lemma_step_ends_with_answer(pending: PendingView, event: EventView)
    ensures
        next_step(pending, event).next is None <==> next_step(pending, event).action is Respond,
{
}

/// Past the lookup, too, an answer is the last action.
proof fn lemma_answer_is_last_from(pending: Option<PendingView>, events: Seq<EventView>, i: int)
    requires
        0 <= i < run_from(pending, events).len(),
        run_from(pending, events)[i] is Respond,
    ensures
        i == run_from(pending, events).len() - 1,
    decreases events.len(),
{
    let step = next_step(pending->0, events[0]);
    if i > 0 {
        lemma_answer_is_last_from(step.next, events.drop_first(), i - 1);
    } else {
        assert(step.next is None);
        assert(run_from(step.next, events.drop_first()).len() == 0) by {
            reveal_with_fuel(run_from, 2);
        }
    }
}

/// A request answers at most once, and its answer is the last thing it does.
pub proof fn lemma_answer_is_last(
    city: Seq<char>,
    api_key: Seq<char>,
    events: Seq<EventView>,
    i: int,
)
    requires
        0 <= i < run(city, api_key, events).len(),
        run(city, api_key, events)[i] is Respond,
    ensures
        i == run(city, api_key, events).len() - 1,
{
    lemma_answer_is_last_from(first_step(city, api_key).next, events, i - 1);
}

/// When nothing is stored for the city, the request calls the upstream
/// provider exactly once, for the city as it was given, whatever is reported
/// after that. It writes to the store exactly once when the provider gives a
/// record, and not at all otherwise.
pub proof fn lemma_miss_fetches_once(city: Seq<char>, api_key: Seq<char>, rest: Seq<EventView>)
    ensures
        ({
            let actions = run(city, api_key, seq![EventView::Reply(StoreValueView::Nil)] + rest);
            &&& fetches(actions) == 1
            &&& actions.len() >= 2
            &&& actions[0] == ActionView::Lookup { key: lower(city) }
            &&& actions[1] == ActionView::Fetch { url: request_url(api_key, city) }
            &&& stores(actions) == if rest.len() > 0 && rest[0] matches EventView::Fetched(
                Some(_),
            ) {
                1nat
            } else {
                0nat
            }
        }),
{
    let lookup = PendingView::Lookup { city, api_key };
    let nil = EventView::Reply(StoreValueView::Nil);
    lemma_run_from_unfold(lookup, nil, rest);
    let fetch = ActionView::Fetch { url: request_url(api_key, city) };
    let tail = run_from(Some(PendingView::Upstream), rest);
    lemma_counts_push_front(fetch, tail);
    lemma_counts_push_front(first_step(city, api_key).action, seq![fetch] + tail);
    lemma_calls_after_lookup(Some(PendingView::Upstream), rest);
    if rest.len() > 0 {
        let step = next_step(PendingView::Upstream, rest[0]);
        lemma_calls_after_lookup(step.next, rest.drop_first());
        lemma_counts_push_front(step.action, run_from(step.next, rest.drop_first()));
    }
}

/// When nothing is stored for the city and the upstream provider gives a
/// record, the request calls the provider exactly once and writes the record
/// to the store exactly once, under its lower-cased place name and with the
/// fixed expiration, whatever is reported after that.
pub proof fn lemma_miss_fetches_and_stores_once(
    city: Seq<char>,
    api_key: Seq<char>,
    record: WeatherView,
    rest: Seq<EventView>,
)
    ensures
        ({
            let events = seq![
                EventView::Reply(StoreValueView::Nil),
                EventView::Fetched(Some(record)),
            ] + rest;
            let actions = run(city, api_key, events);
            &&& fetches(actions) == 1
            &&& stores(actions) == 1
            &&& actions.len() >= 3
            &&& actions[0] == ActionView::Lookup { key: lower(city) }
            &&& actions[1] == ActionView::Fetch { url: request_url(api_key, city) }
            &&& actions[2] == ActionView::Store {
                key: lower(record.location.name),
                record,
                seconds: CACHE_TTL_SECONDS,
            }
        }),
{
    let nil = EventView::Reply(StoreValueView::Nil);
    let fetched = EventView::Fetched(Some(record));
    let events = seq![nil, fetched] + rest;
    assert(events =~= seq![nil] + (seq![fetched] + rest));
    lemma_miss_fetches_once(city, api_key, seq![fetched] + rest);
    lemma_run_from_unfold(PendingView::Lookup { city, api_key }, nil, seq![fetched] + rest);
    lemma_run_from_unfold(PendingView::Upstream, fetched, rest);
}

/// When the store answers the lookup with an entry, the request neither
/// calls the upstream provider nor writes to the store, whatever is reported
/// after that.
pub proof fn lemma_hit_fetches_nothing(
    city: Seq<char>,
    api_key: Seq<char>,
    value: StoreValueView,
    rest: Seq<EventView>,
)
    requires
        !(value is Nil),
    ensures
        fetches(run(city, api_key, seq![EventView::Reply(value)] + rest)) == 0,
        stores(run(city, api_key, seq![EventView::Reply(value)] + rest)) == 0,
{
    let lookup = PendingView::Lookup { city, api_key };
    let reply = EventView::Reply(value);
    lemma_run_from_unfold(lookup, reply, rest);
    let step = next_step(lookup, reply);
    lemma_calls_after_lookup(step.next, rest);
    lemma_counts_push_front(step.action, run_from(step.next, rest));
    lemma_counts_push_front(
        first_step(city, api_key).action,
        seq![step.action] + run_from(step.next, rest),
    );
}

} // verus!
