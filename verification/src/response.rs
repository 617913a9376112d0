//! HTTP-style responses and the mapping from storage outcomes to them.

use crate::todo::Todo;
use vstd::prelude::*;

verus! {

/// A response body: a single item, a list of items, or a plain-text
/// reason string. Serialization to JSON text is the hosting server's
/// concern; contracts here pin down the structured content.
pub enum Body {
    Item(Todo),
    Items(Vec<Todo>),
    Message(String),
}

/// An HTTP-style response: a status code and a body.
pub struct Response {
    pub status: u16,
    pub body: Body,
}

/// The tagged outcome of a single-item storage operation: the item,
/// absence, or a storage failure.
pub enum StoreOutcome {
    Found(Todo),
    Absent,
    Failure,
}

/// The error-taxonomy mapping: a found item becomes 200 with the item,
/// absence becomes 404 "Not Found", and a storage failure becomes 500
/// with a generic reason.
pub fn respond_to_outcome(outcome: StoreOutcome) -> (r: Response)
    ensures
        match outcome {
            StoreOutcome::Found(t) => r.status == 200 && (r.body matches Body::Item(u) && u@
                == t@),
            StoreOutcome::Absent => r.status == 404 && (r.body matches Body::Message(m) && m@
                == "Not Found"@),
            StoreOutcome::Failure => r.status == 500 && (r.body matches Body::Message(m) && m@
                == "Internal Server Error"@),
        },
{
    match outcome {
        StoreOutcome::Found(t) => Response { status: 200, body: Body::Item(t) },
        StoreOutcome::Absent => Response {
            status: 404,
            body: Body::Message("Not Found".to_owned()),
        },
        StoreOutcome::Failure => Response {
            status: 500,
            body: Body::Message("Internal Server Error".to_owned()),
        },
    }
}

} // verus!
