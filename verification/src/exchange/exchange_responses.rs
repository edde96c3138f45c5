//! What the exchange says of a posted action.

use crate::address::text_eq;
use crate::errors::Error;
use crate::ws::responses::{FilledStatus, PostResponse, PostResponseStatus};
use vstd::prelude::*;

verus! {

/// What became of one order of a request. The orders of one request fare
/// independently: some may be filled while others are refused.
#[derive(Debug, Clone, PartialEq, Eq)]
pub enum OrderStatus {
    /// The order was filled.
    Filled(FilledStatus),
    /// The order was accepted and rests in the book.
    Resting,
    /// The exchange refused the order, for the reason given.
    Error(String),
}

/// What one status entry says: an error where it names one, else a fill
/// where it names one, else that the order rests.
pub open spec fn status_of(entry: PostResponseStatus) -> OrderStatus {
    match entry.error {
        Some(reason) => OrderStatus::Error(reason),
        None => match entry.filled {
            Some(fill) => OrderStatus::Filled(fill),
            None => OrderStatus::Resting,
        },
    }
}

/// The status entries of a response; none where the response carries no
/// data.
pub open spec fn entries_of(response: PostResponse) -> Seq<PostResponseStatus> {
    match response.data.response.payload.response.data {
        Some(data) => data.statuses@,
        None => Seq::empty(),
    }
}

/// Whether the exchange accepted the request as a whole.
pub open spec fn accepted(response: PostResponse) -> bool {
    response.data.response.payload.status@ == "ok"@
}

/// Reads one status entry.
pub fn read_status(entry: &PostResponseStatus) -> (status: OrderStatus)
    ensures
        status == status_of(*entry),
{
    match &entry.error {
        Some(reason) => OrderStatus::Error(reason.clone()),
        None => match &entry.filled {
            Some(fill) => OrderStatus::Filled(fill.clone()),
            None => OrderStatus::Resting,
        },
    }
}

/// Reads a response. Where the exchange accepted the request, the result
/// holds one status for each order, in the order of the request; where it
/// refused the request as a whole, the result is an `Exchange` error that
/// carries the status the exchange gave.
pub fn decode_response(response: &PostResponse) -> (outcome: Result<Vec<OrderStatus>, Error>)
    ensures
        match outcome {
            Ok(statuses) => {
                &&& accepted(*response)
                &&& statuses@.len() == entries_of(*response).len()
                &&& forall|i: int|
                    0 <= i < statuses@.len() ==> statuses@[i] == status_of(
                        #[trigger] entries_of(*response)[i],
                    )
            },
            Err(e) => !accepted(*response) && e == Error::Exchange(
                response.data.response.payload.status,
            ),
        },
{
    if !text_eq(response.data.response.payload.status.as_str(), "ok") {
        return Err(Error::Exchange(response.data.response.payload.status.clone()));
    }
    let mut statuses: Vec<OrderStatus> = Vec::new();
    match &response.data.response.payload.response.data {
        None => {},
        Some(data) => {
            let mut i: usize = 0;
            while i < data.statuses.len()
                invariant
                    i <= data.statuses.len(),
                    statuses@.len() == i,
                    forall|k: int|
                        0 <= k < i ==> statuses@[k] == status_of(#[trigger] data.statuses@[k]),
                decreases data.statuses.len() - i,
            {
                statuses.push(read_status(&data.statuses[i]));
                i += 1;
            }
        },
    }
    Ok(statuses)
}

} // verus!
