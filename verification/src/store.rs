//! A model of the key-value store with expiring entries, for stating what a
//! request does against it. Time is counted in seconds.

use crate::handler::{ActionView, EventView, PendingView};
use crate::key::{lower, CACHE_TTL_SECONDS};
use crate::record::WeatherView;
use crate::reply::StoreValueView;
use crate::trace::{
    fetches, lemma_hit_fetches_nothing, lemma_miss_fetches_and_stores_once,
    lemma_miss_fetches_once, lemma_run_from_unfold, run, stores,
};
use crate::upstream::request_url;
use vstd::prelude::*;
use vstd::utf8::{encode_utf8, encode_utf8_decode_utf8, encode_utf8_valid_utf8};

verus! {

/// One stored value and the time from which it can no longer be read.
pub struct Entry {
    pub payload: Seq<u8>,
    pub expires_at: int,
}

/// The entries of the store, by key.
pub struct StoreModel {
    pub entries: Map<Seq<char>, Entry>,
}

impl StoreModel {
    /// Whether `key` has an entry that can be read at the time `now`.
    pub open spec fn holds(self, key: Seq<char>, now: int) -> bool {
        self.entries.dom().contains(key) && now < self.entries[key].expires_at
    }

    /// What the store answers at the time `now` when `key` is read: the
    /// payload of its entry, or nil when it has none or the entry has expired.
    pub open spec fn get(self, key: Seq<char>, now: int) -> StoreValueView {
        if self.holds(key, now) {
            StoreValueView::Data(self.entries[key].payload)
        } else {
            StoreValueView::Nil
        }
    }

    /// The store after `payload` is written under `key` at the time `now`, to
    /// expire after `seconds`.
    pub open spec fn set_ex(
        self,
        key: Seq<char>,
        payload: Seq<u8>,
        seconds: int,
        now: int,
    ) -> StoreModel {
        let entry = Entry { payload, expires_at: now + seconds };
        StoreModel { entries: self.entries.insert(key, entry) }
    }

    /// The store after a request has written `payload` under `key` at the
    /// time `now`, with the expiration that every request writes with.
    pub open spec fn cache(self, key: Seq<char>, payload: Seq<u8>, now: int) -> StoreModel {
        self.set_ex(key, payload, CACHE_TTL_SECONDS as int, now)
    }
}

/// An entry written with the fixed expiration is read back until that many
/// seconds have passed, and cannot be read from then on. Entries under other
/// keys are read as before.
pub proof fn lemma_entry_expires(
    store: StoreModel,
    key: Seq<char>,
    payload: Seq<u8>,
    now: int,
    later: int,
    other: Seq<char>,
)
    ensures
        later < now + CACHE_TTL_SECONDS ==> store.cache(key, payload, now).get(key, later)
            == StoreValueView::Data(payload),
        later >= now + CACHE_TTL_SECONDS ==> store.cache(key, payload, now).get(key, later)
            == StoreValueView::Nil,
        other != key ==> store.cache(key, payload, now).get(other, later) == store.get(
            other,
            later,
        ),
{
}

/// A request for a city whose key has no readable entry calls the upstream
/// provider exactly once, whatever is reported after the lookup. It writes
/// to the store exactly once when the provider gives a record, and not at all
/// otherwise.
pub proof fn lemma_absent_entry_is_fetched(
    store: StoreModel,
    now: int,
    city: Seq<char>,
    api_key: Seq<char>,
    rest: Seq<EventView>,
)
    requires
        !store.holds(lower(city), now),
    ensures
        ({
            let lookup = EventView::Reply(store.get(lower(city), now));
            let actions = run(city, api_key, seq![lookup] + rest);
            &&& fetches(actions) == 1
            &&& stores(actions) == if rest.len() > 0 && rest[0] matches EventView::Fetched(
                Some(_),
            ) {
                1nat
            } else {
                0nat
            }
        }),
{
    lemma_miss_fetches_once(city, api_key, rest);
}

/// A request for a city whose key has a readable entry neither calls the
/// upstream provider nor writes to the store.
pub proof fn lemma_present_entry_is_not_fetched(
    store: StoreModel,
    now: int,
    city: Seq<char>,
    api_key: Seq<char>,
    rest: Seq<EventView>,
)
    requires
        store.holds(lower(city), now),
    ensures
        ({
            let lookup = EventView::Reply(store.get(lower(city), now));
            let actions = run(city, api_key, seq![lookup] + rest);
            fetches(actions) == 0 && stores(actions) == 0
        }),
{
    lemma_hit_fetches_nothing(city, api_key, store.get(lower(city), now), rest);
}

/// The actions of a request that finds nothing stored, fetches `record` and
/// has its write acknowledged.
pub open spec fn miss_actions(city: Seq<char>, api_key: Seq<char>, record: WeatherView) -> Seq<
    ActionView,
> {
    seq![
        ActionView::Lookup { key: lower(city) },
        ActionView::Fetch { url: request_url(api_key, city) },
        ActionView::Store { key: lower(record.location.name), record, seconds: CACHE_TTL_SECONDS },
        ActionView::Respond(Ok(record)),
    ]
}

/// The actions of a request that finds `text` stored and has it decoded into
/// `record`.
pub open spec fn hit_actions(city: Seq<char>, text: Seq<char>, record: WeatherView) -> Seq<
    ActionView,
> {
    seq![
        ActionView::Lookup { key: lower(city) },
        ActionView::Decode { payload: text },
        ActionView::Respond(Ok(record)),
    ]
}

/// A first request against a store without an entry for the city looks the
/// city up, fetches, writes and answers with the fetched record. When the
/// record is stored as the bytes of `text`, the store then has an entry
/// under the lower-cased place name of the record. A repeated request before
/// the entry expires is answered with the same record and without a call to
/// the upstream provider, provided the city's key is the key of the record's
/// place name and `text` is decoded into `record` again.
pub proof fn lemma_repeat_is_served_from_store(
    store: StoreModel,
    city: Seq<char>,
    api_key: Seq<char>,
    record: WeatherView,
    text: Seq<char>,
    now: int,
    later: int,
)
    requires
        !store.holds(lower(city), now),
        now <= later < now + CACHE_TTL_SECONDS,
    ensures
        ({
            let first = run(
                city,
                api_key,
                seq![
                    EventView::Reply(store.get(lower(city), now)),
                    EventView::Fetched(Some(record)),
                    EventView::Reply(StoreValueView::Okay),
                ],
            );
            let after = store.cache(lower(record.location.name), encode_utf8(text), now);
            let again = run(
                city,
                api_key,
                seq![
                    EventView::Reply(after.get(lower(city), later)),
                    EventView::Decoded(Some(record)),
                ],
            );
            &&& first == miss_actions(city, api_key, record)
            &&& after.holds(lower(record.location.name), later)
            &&& lower(city) == lower(record.location.name) ==> {
                &&& again == hit_actions(city, text, record)
                &&& fetches(again) == 0
            }
        }),
{
    let lookup = PendingView::Lookup { city, api_key };
    let nil = EventView::Reply(StoreValueView::Nil);
    let fetched = EventView::Fetched(Some(record));
    let okay = EventView::Reply(StoreValueView::Okay);
    let none = Seq::<EventView>::empty();
    assert(seq![nil, fetched, okay] =~= seq![nil] + (seq![fetched] + (seq![okay] + none)));
    lemma_run_from_unfold(lookup, nil, seq![fetched] + (seq![okay] + none));
    lemma_run_from_unfold(PendingView::Upstream, fetched, seq![okay] + none);
    lemma_run_from_unfold(PendingView::Store { record }, okay, none);
    assert(run(city, api_key, seq![nil, fetched, okay]) =~= miss_actions(city, api_key, record));

    if lower(city) == lower(record.location.name) {
        let stored = StoreValueView::Data(encode_utf8(text));
        let data = EventView::Reply(stored);
        let decoded = EventView::Decoded(Some(record));
        encode_utf8_valid_utf8(text);
        encode_utf8_decode_utf8(text);
        assert(seq![data, decoded] =~= seq![data] + (seq![decoded] + none));
        lemma_run_from_unfold(lookup, data, seq![decoded] + none);
        lemma_run_from_unfold(PendingView::Decode, decoded, none);
        assert(run(city, api_key, seq![data, decoded]) =~= hit_actions(city, text, record));
        lemma_hit_fetches_nothing(city, api_key, stored, seq![decoded] + none);
    }
}

/// Once the entry that a request wrote has expired, a repeated request finds
/// nothing under that key and calls the upstream provider again.
pub proof fn lemma_expired_entry_is_fetched_again(
    store: StoreModel,
    city: Seq<char>,
    api_key: Seq<char>,
    payload: Seq<u8>,
    now: int,
    later: int,
    rest: Seq<EventView>,
)
    requires
        later >= now + CACHE_TTL_SECONDS,
    ensures
        ({
            let after = store.cache(lower(city), payload, now);
            let lookup = EventView::Reply(after.get(lower(city), later));
            fetches(run(city, api_key, seq![lookup] + rest)) == 1
        }),
{
    lemma_miss_fetches_once(city, api_key, rest);
}

} // verus!
