//! The cache-first sequence of one weather request, as a step function.
//!
//! The caller performs each [`Action`] and reports what came of it as an
//! [`Event`]; [`Pending::resume`] then decides what is done next. A request
//! ends with the action [`Action::Respond`].

use crate::error::{WeatherError, WeatherErrorView};
use crate::key::{cache_key, lower, CACHE_TTL_SECONDS};
use crate::record::{WeatherResponse, WeatherView};
use crate::reply::{StoreValue, StoreValueView};
use crate::upstream::{request_url, upstream_url};
use vstd::prelude::*;

verus! {

/// What a request waits for.
#[derive(Debug, PartialEq, Eq)]
pub enum Pending {
    /// The store's answer to the lookup of the city.
    Lookup { city: String, api_key: String },
    /// The record decoded from the cached text.
    Decode,
    /// The record of the upstream provider.
    Upstream,
    /// The store's answer to the write of `record`.
    Store { record: WeatherResponse },
    /// The record decoded from the text that the store answered the write of
    /// `record` with.
    Confirm { record: WeatherResponse },
}

/// What the caller reports.
#[derive(Debug, PartialEq, Eq)]
pub enum Event {
    /// The store answered.
    Reply(StoreValue),
    /// The store could not be reached or did not answer.
    StoreFailed,
    /// The text handed out for decoding is this record, or is none.
    Decoded(Option<WeatherResponse>),
    /// The upstream provider gave this record, or none.
    Fetched(Option<WeatherResponse>),
}

/// What the caller is to do next.
#[derive(Debug, PartialEq, Eq)]
pub enum Action {
    /// Read `key` from the store.
    Lookup { key: String },
    /// Decode `payload` into a record.
    Decode { payload: String },
    /// Request `url` from the upstream provider.
    Fetch { url: String },
    /// Write the serialised `record` under `key`, to expire after `seconds`.
    Store { key: String, record: WeatherResponse, seconds: u64 },
    /// Answer the request.
    Respond(Result<WeatherResponse, WeatherError>),
}

/// One decision: what to do, and what the request then waits for.
#[derive(Debug, PartialEq, Eq)]
pub struct Step {
    pub next: Option<Pending>,
    pub action: Action,
}

/// What a [`Pending`] holds.
pub enum PendingView {
    Lookup { city: Seq<char>, api_key: Seq<char> },
    Decode,
    Upstream,
    Store { record: WeatherView },
    Confirm { record: WeatherView },
}

/// What an [`Event`] holds.
pub enum EventView {
    Reply(StoreValueView),
    StoreFailed,
    Decoded(Option<WeatherView>),
    Fetched(Option<WeatherView>),
}

/// What an [`Action`] holds.
pub enum ActionView {
    Lookup { key: Seq<char> },
    Decode { payload: Seq<char> },
    Fetch { url: Seq<char> },
    Store { key: Seq<char>, record: WeatherView, seconds: u64 },
    Respond(Result<WeatherView, WeatherErrorView>),
}

/// What a [`Step`] holds.
pub struct StepView {
    pub next: Option<PendingView>,
    pub action: ActionView,
}

/// The view of a record, or none.
pub open spec fn record_view(r: Option<WeatherResponse>) -> Option<WeatherView> {
    match r {
        Some(record) => Some(record@),
        None => None,
    }
}

impl View for Pending {
    type V = PendingView;

    open spec fn view(&self) -> PendingView {
        match self {
            Pending::Lookup { city, api_key } => PendingView::Lookup {
                city: city@,
                api_key: api_key@,
            },
            Pending::Decode => PendingView::Decode,
            Pending::Upstream => PendingView::Upstream,
            Pending::Store { record } => PendingView::Store { record: record@ },
            Pending::Confirm { record } => PendingView::Confirm { record: record@ },
        }
    }
}

impl View for Event {
    type V = EventView;

    open spec fn view(&self) -> EventView {
        match self {
            Event::Reply(value) => EventView::Reply(value@),
            Event::StoreFailed => EventView::StoreFailed,
            Event::Decoded(record) => EventView::Decoded(record_view(*record)),
            Event::Fetched(record) => EventView::Fetched(record_view(*record)),
        }
    }
}

impl View for Action {
    type V = ActionView;

    open spec fn view(&self) -> ActionView {
        match self {
            Action::Lookup { key } => ActionView::Lookup { key: key@ },
            Action::Decode { payload } => ActionView::Decode { payload: payload@ },
            Action::Fetch { url } => ActionView::Fetch { url: url@ },
            Action::Store { key, record, seconds } => ActionView::Store {
                key: key@,
                record: record@,
                seconds: *seconds,
            },
            Action::Respond(Ok(record)) => ActionView::Respond(Ok(record@)),
            Action::Respond(Err(e)) => ActionView::Respond(Err(e@)),
        }
    }
}

impl View for Step {
    type V = StepView;

    open spec fn view(&self) -> StepView {
        StepView {
            next: match self.next {
                Some(pending) => Some(pending@),
                None => None,
            },
            action: self.action@,
        }
    }
}

/// The step that ends a request with `result`.
pub open spec fn finish(result: Result<WeatherView, WeatherErrorView>) -> StepView {
    StepView { next: None, action: ActionView::Respond(result) }
}

/// The step after an answer of the store that should carry a record's text:
/// the text is handed out for decoding and the request waits as `then`; an
/// answer without such a text ends the request with its error.
pub open spec fn read_payload(value: StoreValueView, then: PendingView) -> StepView {
    match value.payload() {
        Ok(payload) => StepView { next: Some(then), action: ActionView::Decode { payload } },
        Err(e) => finish(Err(e)),
    }
}

/// The first step of a request for `city`: its lower-cased name is looked up
/// in the store.
pub open spec fn first_step(city: Seq<char>, api_key: Seq<char>) -> StepView {
    StepView {
        next: Some(PendingView::Lookup { city, api_key }),
        action: ActionView::Lookup { key: lower(city) },
    }
}

/// The step that follows when `event` is reported to a request that waits as
/// `pending`.
///
/// A lookup answered with nil goes on to the upstream provider, asked for the
/// city as it was given; any other answer is read as the cached record. The
/// upstream record is written under its own lower-cased place name, with the
/// fixed expiration. The write is acknowledged by `OK`; nil means that
/// nothing was cached, and any other answer is read as a record before the
/// fetched one is returned. A failure ends the request with its error, and so
/// does an event that the request does not wait for.
pub open spec fn next_step(pending: PendingView, event: EventView) -> StepView {
    match (pending, event) {
        (PendingView::Lookup { city, api_key }, EventView::Reply(value)) => {
            if value is Nil {
                StepView {
                    next: Some(PendingView::Upstream),
                    action: ActionView::Fetch { url: request_url(api_key, city) },
                }
            } else {
                read_payload(value, PendingView::Decode)
            }
        },
        (PendingView::Lookup { .. }, EventView::StoreFailed) => finish(
            Err(WeatherErrorView::StoreUnavailable),
        ),
        (PendingView::Decode, EventView::Decoded(Some(record))) => finish(Ok(record)),
        (PendingView::Decode, EventView::Decoded(None)) => finish(
            Err(WeatherErrorView::MalformedPayload),
        ),
        (PendingView::Upstream, EventView::Fetched(Some(record))) => StepView {
            next: Some(PendingView::Store { record }),
            action: ActionView::Store {
                key: lower(record.location.name),
                record,
                seconds: CACHE_TTL_SECONDS,
            },
        },
        (PendingView::Upstream, EventView::Fetched(None)) => finish(
            Err(WeatherErrorView::UpstreamFailed),
        ),
        (PendingView::Store { record }, EventView::Reply(value)) => {
            if value is Nil {
                finish(Err(WeatherErrorView::NotCached { name: record.location.name }))
            } else if value is Okay {
                finish(Ok(record))
            } else {
                read_payload(value, PendingView::Confirm { record })
            }
        },
        (PendingView::Store { .. }, EventView::StoreFailed) => finish(
            Err(WeatherErrorView::StoreUnavailable),
        ),
        (PendingView::Confirm { record }, EventView::Decoded(Some(_))) => finish(Ok(record)),
        (PendingView::Confirm { .. }, EventView::Decoded(None)) => finish(
            Err(WeatherErrorView::MalformedPayload),
        ),
        _ => finish(Err(WeatherErrorView::UnexpectedEvent)),
    }
}

/// Ends a request with `result`.
fn respond(result: Result<WeatherResponse, WeatherError>) -> (step: Step)
    ensures
        step@ == finish(
            match result {
                Ok(record) => Ok(record@),
                Err(e) => Err(e@),
            },
        ),
{
    Step { next: None, action: Action::Respond(result) }
}

/// Hands the text of `value` out for decoding, to go on as `then`.
fn decode_reply(value: &StoreValue, then: Pending) -> (step: Step)
    ensures
        step@ == read_payload(value@, then@),
{
    match WeatherResponse::from_redis_value(value) {
        Ok(payload) => Step { next: Some(then), action: Action::Decode { payload } },
        Err(e) => respond(Err(e)),
    }
}

/// Begins the request for the weather of `city`: the first thing to do is to
/// look the city up in the store, under its lower-cased name.
pub fn city_weather(city: String, api_key: String) -> (step: Step)
    ensures
        step@ == first_step(city@, api_key@),
{
    let key = cache_key(city.as_str());
    Step { next: Some(Pending::Lookup { city, api_key }), action: Action::Lookup { key } }
}

impl Pending {
    /// Decides what follows when `event` is reported to the waiting request.
    pub fn resume(self, event: Event) -> (step: Step)
        ensures
            step@ == next_step(self@, event@),
    {
        match (self, event) {
            (Pending::Lookup { city, api_key }, Event::Reply(value)) => match value {
                StoreValue::Nil => {
                    let url = upstream_url(api_key.as_str(), city.as_str());
                    Step { next: Some(Pending::Upstream), action: Action::Fetch { url } }
                },
                other => decode_reply(&other, Pending::Decode),
            },
            (Pending::Lookup { .. }, Event::StoreFailed) => respond(
                Err(WeatherError::StoreUnavailable),
            ),
            (Pending::Decode, Event::Decoded(Some(record))) => respond(Ok(record)),
            (Pending::Decode, Event::Decoded(None)) => respond(
                Err(WeatherError::MalformedPayload),
            ),
            (Pending::Upstream, Event::Fetched(Some(record))) => {
                let key = cache_key(record.location.name.as_str());
                let kept = record.clone();
                Step {
                    next: Some(Pending::Store { record: kept }),
                    action: Action::Store { key, record, seconds: CACHE_TTL_SECONDS },
                }
            },
            (Pending::Upstream, Event::Fetched(None)) => respond(
                Err(WeatherError::UpstreamFailed),
            ),
            (Pending::Store { record }, Event::Reply(value)) => match value {
                StoreValue::Nil => respond(
                    Err(WeatherError::NotCached { name: record.location.name }),
                ),
                StoreValue::Okay => respond(Ok(record)),
                other => decode_reply(&other, Pending::Confirm { record }),
            },
            (Pending::Store { .. }, Event::StoreFailed) => respond(
                Err(WeatherError::StoreUnavailable),
            ),
            (Pending::Confirm { record }, Event::Decoded(Some(_))) => respond(Ok(record)),
            (Pending::Confirm { .. }, Event::Decoded(None)) => respond(
                Err(WeatherError::MalformedPayload),
            ),
            _ => respond(Err(WeatherError::UnexpectedEvent)),
        }
    }
}

} // verus!
