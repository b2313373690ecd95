//! The ways in which a weather request can fail, and the text of each.

use vstd::prelude::*;
use vstd::string::StringExecFns;

verus! {

/// Why a weather request was not answered with a record.
#[derive(Debug, PartialEq, Eq)]
pub enum WeatherError {
    /// The store could not be reached or did not answer.
    StoreUnavailable,
    /// The store answered with something other than binary data.
    WrongValueType,
    /// The stored data is not UTF-8 text.
    InvalidUtf8,
    /// The stored text is not a serialised record.
    MalformedPayload,
    /// The upstream provider gave no record.
    UpstreamFailed,
    /// The store answered a write with nil; `name` is the place of the record.
    NotCached { name: String },
    /// An outcome was reported that the pending step does not wait for.
    UnexpectedEvent,
}

/// What a [`WeatherError`] holds.
pub enum WeatherErrorView {
    StoreUnavailable,
    WrongValueType,
    InvalidUtf8,
    MalformedPayload,
    UpstreamFailed,
    NotCached { name: Seq<char> },
    UnexpectedEvent,
}

impl View for WeatherError {
    type V = WeatherErrorView;

    open spec fn view(&self) -> WeatherErrorView {
        match self {
            WeatherError::StoreUnavailable => WeatherErrorView::StoreUnavailable,
            WeatherError::WrongValueType => WeatherErrorView::WrongValueType,
            WeatherError::InvalidUtf8 => WeatherErrorView::InvalidUtf8,
            WeatherError::MalformedPayload => WeatherErrorView::MalformedPayload,
            WeatherError::UpstreamFailed => WeatherErrorView::UpstreamFailed,
            WeatherError::NotCached { name } => WeatherErrorView::NotCached { name: name@ },
            WeatherError::UnexpectedEvent => WeatherErrorView::UnexpectedEvent,
        }
    }
}

impl WeatherErrorView {
    /// The text that describes the failure.
    pub open spec fn message(self) -> Seq<char> {
        match self {
            WeatherErrorView::StoreUnavailable => "The store is unavailable"@,
            WeatherErrorView::WrongValueType => "Invalid Redis value type for WeatherResponse"@,
            WeatherErrorView::InvalidUtf8 => "Invalid UTF-8 data in Redis"@,
            WeatherErrorView::MalformedPayload => "Failed to deserialize JSON"@,
            WeatherErrorView::UpstreamFailed => "The upstream request failed"@,
            WeatherErrorView::NotCached { name } => "Weather for "@ + name + " was not cached"@,
            WeatherErrorView::UnexpectedEvent => "Unexpected event for the pending step"@,
        }
    }
}

impl WeatherError {
    /// The text that describes the failure, as it is shown to a caller.
    pub fn message(&self) -> (text: String)
        ensures
            text@ == self@.message(),
    {
        match self {
            WeatherError::StoreUnavailable => String::from_str("The store is unavailable"),
            WeatherError::WrongValueType => String::from_str(
                "Invalid Redis value type for WeatherResponse",
            ),
            WeatherError::InvalidUtf8 => String::from_str("Invalid UTF-8 data in Redis"),
            WeatherError::MalformedPayload => String::from_str("Failed to deserialize JSON"),
            WeatherError::UpstreamFailed => String::from_str("The upstream request failed"),
            WeatherError::NotCached { name } => {
                let mut text = String::from_str("Weather for ");
                text.append(name.as_str());
                text.append(" was not cached");
                text
            },
            WeatherError::UnexpectedEvent => String::from_str(
                "Unexpected event for the pending step",
            ),
        }
    }
}

impl Clone for WeatherError {
    fn clone(&self) -> (copy: Self)
        ensures
            copy@ == self@,
    {
        match self {
            WeatherError::StoreUnavailable => WeatherError::StoreUnavailable,
            WeatherError::WrongValueType => WeatherError::WrongValueType,
            WeatherError::InvalidUtf8 => WeatherError::InvalidUtf8,
            WeatherError::MalformedPayload => WeatherError::MalformedPayload,
            WeatherError::UpstreamFailed => WeatherError::UpstreamFailed,
            WeatherError::NotCached { name } => WeatherError::NotCached { name: name.clone() },
            WeatherError::UnexpectedEvent => WeatherError::UnexpectedEvent,
        }
    }
}

} // verus!
