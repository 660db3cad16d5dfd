//! The requests that the store understands.

use vstd::prelude::*;

verus! {

/// One HTTP request, ready to be sent.
#[derive(Clone, Debug, PartialEq, Eq)]
pub enum Request {
    /// Read what is stored under `url`.
    Get { url: String },
    /// Store `body` under `url`.
    Put { url: String, body: String, content_type: String },
    /// Remove what is stored under `url`.
    Delete { url: String },
}

/// The model of a [`Request`].
pub enum RequestView {
    Get { url: Seq<char> },
    Put { url: Seq<char>, body: Seq<char>, content_type: Seq<char> },
    Delete { url: Seq<char> },
}

impl View for Request {
    type V = RequestView;

    open spec fn view(&self) -> RequestView {
        match *self {
            Request::Get { url } => RequestView::Get { url: url@ },
            Request::Put { url, body, content_type } => RequestView::Put {
                url: url@,
                body: body@,
                content_type: content_type@,
            },
            Request::Delete { url } => RequestView::Delete { url: url@ },
        }
    }
}

/// The content type that every stored value is sent with.
pub open spec fn json_content_type() -> Seq<char> {
    "application/json"@
}

impl Request {
    /// The address that the request goes to.
    pub fn url(&self) -> (r: &str)
        ensures
            r@ == match self@ {
                RequestView::Get { url } => url,
                RequestView::Put { url, .. } => url,
                RequestView::Delete { url } => url,
            },
    {
        match self {
            Request::Get { url } => url.as_str(),
            Request::Put { url, .. } => url.as_str(),
            Request::Delete { url } => url.as_str(),
        }
    }
}

} // verus!
