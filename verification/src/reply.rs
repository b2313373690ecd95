//! What the key-value store answers, and how a record's text is read out of it.

use crate::error::{WeatherError, WeatherErrorView};
use crate::record::WeatherResponse;
use vstd::prelude::*;
use vstd::string::StringSliceAdditionalSpecFns;
use vstd::utf8::{
    decode_utf8, encode_utf8, encode_utf8_decode_utf8, encode_utf8_valid_utf8, valid_utf8,
};

verus! {

/// One answer of the key-value store.
#[derive(Debug, PartialEq, Eq)]
pub enum StoreValue {
    /// Nothing is stored under the key.
    Nil,
    /// An integer.
    Int(i64),
    /// Binary data.
    Data(Vec<u8>),
    /// A nested answer of `len` parts.
    Bulk { len: usize },
    /// A status line.
    Status(String),
    /// The status `OK`.
    Okay,
}

/// What a [`StoreValue`] holds.
pub enum StoreValueView {
    Nil,
    Int(i64),
    Data(Seq<u8>),
    Bulk { len: usize },
    Status(Seq<char>),
    Okay,
}

impl View for StoreValue {
    type V = StoreValueView;

    open spec fn view(&self) -> StoreValueView {
        match self {
            StoreValue::Nil => StoreValueView::Nil,
            StoreValue::Int(n) => StoreValueView::Int(*n),
            StoreValue::Data(bytes) => StoreValueView::Data(bytes@),
            StoreValue::Bulk { len } => StoreValueView::Bulk { len: *len },
            StoreValue::Status(line) => StoreValueView::Status(line@),
            StoreValue::Okay => StoreValueView::Okay,
        }
    }
}

impl StoreValueView {
    /// The text of the record that the answer carries: binary data that is
    /// UTF-8 is that text; other binary data and every other answer is an
    /// error.
    pub open spec fn payload(self) -> Result<Seq<char>, WeatherErrorView> {
        match self {
            StoreValueView::Data(bytes) => if valid_utf8(bytes) {
                Ok(decode_utf8(bytes))
            } else {
                Err(WeatherErrorView::InvalidUtf8)
            },
            _ => Err(WeatherErrorView::WrongValueType),
        }
    }
}

/// The view of a text or of the error in its place.
pub open spec fn text_view(r: Result<String, WeatherError>) -> Result<
    Seq<char>,
    WeatherErrorView,
> {
    match r {
        Ok(text) => Ok(text@),
        Err(e) => Err(e@),
    }
}

/// `core::str::from_utf8` of the standard library. Trusted: it gives a text
/// exactly when the bytes are well-formed UTF-8, and the text then consists
/// of these very bytes.
#[verifier::external_body]
fn utf8_text(bytes: &[u8]) -> (r: Option<&str>)
    ensures
        r is Some <==> valid_utf8(bytes@),
        r matches Some(text) ==> text.spec_bytes() == bytes@,
{
    core::str::from_utf8(bytes).ok()
}

/// A text that was stored as its UTF-8 bytes is read back as it was written.
pub proof fn lemma_stored_text_is_read_back(text: Seq<char>)
    ensures
        StoreValueView::Data(encode_utf8(text)).payload() == Ok::<Seq<char>, WeatherErrorView>(
            text,
        ),
{
    encode_utf8_valid_utf8(text);
    encode_utf8_decode_utf8(text);
}

impl WeatherResponse {
    /// Reads the serialised record out of an answer of the store.
    ///
    /// Binary data that is UTF-8 gives its text, which the caller decodes
    /// into the record. Binary data that is not UTF-8 is `InvalidUtf8`, and
    /// any other answer is `WrongValueType`.
    pub fn from_redis_value(v: &StoreValue) -> (r: Result<String, WeatherError>)
        ensures
            text_view(r) == v@.payload(),
    {
        match v {
            StoreValue::Data(data) => match utf8_text(data.as_slice()) {
                Some(text) => {
                    proof {
                        encode_utf8_decode_utf8(text@);
                    }
                    Ok(text.to_owned())
                },
                None => Err(WeatherError::InvalidUtf8),
            },
            _ => Err(WeatherError::WrongValueType),
        }
    }
}

} // verus!
