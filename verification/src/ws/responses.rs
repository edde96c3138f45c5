//! The response frame that answers a posted request.

use vstd::prelude::*;

verus! {

/// The frame that answers a posted request.
#[derive(Clone, Debug, PartialEq, Eq)]
pub struct PostResponse {
    pub channel: String,
    pub data: PostResponseData,
}

/// The id of the request that is answered, and the answer.
#[derive(Clone, Debug, PartialEq, Eq)]
pub struct PostResponseData {
    pub id: u64,
    pub response: PostResponseDataResponse,
}

/// The answer: its kind and its payload.
#[derive(Clone, Debug, PartialEq, Eq)]
pub struct PostResponseDataResponse {
    pub response_type: String,
    pub payload: PostResponsePayload,
}

/// What the exchange made of the request as a whole.
#[derive(Clone, Debug, PartialEq, Eq)]
pub struct PostResponsePayload {
    pub status: String,
    pub response: PostResponsePayloadResponse,
}

/// What the exchange made of the action.
#[derive(Clone, Debug, PartialEq, Eq)]
pub struct PostResponsePayloadResponse {
    pub response_type: String,
    pub data: Option<PostResponsePayloadData>,
}

/// One status for each order of the request, in the order of the request.
#[derive(Clone, Debug, PartialEq, Eq)]
pub struct PostResponsePayloadData {
    pub statuses: Vec<PostResponseStatus>,
}

/// What became of one order.
#[derive(Clone, Debug, PartialEq, Eq)]
pub struct PostResponseStatus {
    pub error: Option<String>,
    pub filled: Option<FilledStatus>,
}

/// A fill: the size filled, the average price, and the order's id.
#[derive(Debug, PartialEq, Eq)]
pub struct FilledStatus {
    pub total_sz: String,
    pub avg_px: String,
    pub oid: u64,
}

impl Clone for FilledStatus {
    fn clone(&self) -> (copy: FilledStatus)
        ensures
            copy == *self,
    {
        FilledStatus {
            total_sz: self.total_sz.clone(),
            avg_px: self.avg_px.clone(),
            oid: self.oid,
        }
    }
}

} // verus!
