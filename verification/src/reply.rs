//! The shapes in which the provider answers a request.

use vstd::prelude::*;

verus! {

/// An answer of the provider, as far as its shape was understood.
#[derive(Debug)]
pub enum HbbHttpResponse<T> {
    /// The answer holds an `error` entry that is no text.
    ErrorFormat,
    /// The provider reports an error, with its message.
    Error(String),
    /// The answer holds neither an error nor the data that was asked for.
    DataTypeFormat,
    /// The data that was asked for.
    Data(T),
}

pub enum HbbHttpResponseView<V> {
    ErrorFormat,
    Error(Seq<char>),
    DataTypeFormat,
    Data(V),
}

impl<T: View> View for HbbHttpResponse<T> {
    type V = HbbHttpResponseView<T::V>;

    open spec fn view(&self) -> HbbHttpResponseView<T::V> {
        match self {
            HbbHttpResponse::ErrorFormat => HbbHttpResponseView::ErrorFormat,
            HbbHttpResponse::Error(e) => HbbHttpResponseView::Error(e@),
            HbbHttpResponse::DataTypeFormat => HbbHttpResponseView::DataTypeFormat,
            HbbHttpResponse::Data(d) => HbbHttpResponseView::Data(d@),
        }
    }
}

impl<V> HbbHttpResponseView<V> {
    /// The shape of an answer, from what was found in it: `error` is the
    /// answer's `error` entry where it has one, with its text where it is
    /// text; `data` is what was asked for, where the answer holds it. An
    /// `error` entry decides, whatever else the answer holds.
    pub open spec fn from_parts(error: Option<Option<Seq<char>>>, data: Option<V>)
        -> HbbHttpResponseView<V> {
        match error {
            Some(Some(message)) => HbbHttpResponseView::Error(message),
            Some(None) => HbbHttpResponseView::ErrorFormat,
            None => match data {
                Some(d) => HbbHttpResponseView::Data(d),
                None => HbbHttpResponseView::DataTypeFormat,
            },
        }
    }
}

impl<T: View> HbbHttpResponse<T> {
    /// The shape of an answer, from what was found in it: `error` is the
    /// answer's `error` entry where it has one, with its text where it is
    /// text; `data` is what was asked for, where the answer holds it.
    pub fn from_parts(error: Option<Option<String>>, data: Option<T>) -> (r: Self)
        ensures
            r@ == HbbHttpResponseView::from_parts(
                match error {
                    Some(Some(message)) => Some(Some(message@)),
                    Some(None) => Some(None),
                    None => None,
                },
                match data {
                    Some(d) => Some(d@),
                    None => None,
                },
            ),
    {
        match error {
            Some(Some(message)) => HbbHttpResponse::Error(message),
            Some(None) => HbbHttpResponse::ErrorFormat,
            None => match data {
                Some(d) => HbbHttpResponse::Data(d),
                None => HbbHttpResponse::DataTypeFormat,
            },
        }
    }
}

/// What came of one request: an answer of the provider, or the message of
/// the failure to get one (no connection, a body that cannot be read).
pub open spec fn reply_view<T: View>(reply: Result<HbbHttpResponse<T>, String>) -> Result<
    HbbHttpResponseView<T::V>,
    Seq<char>,
> {
    match reply {
        Ok(response) => Ok(response@),
        Err(message) => Err(message@),
    }
}

} // verus!
