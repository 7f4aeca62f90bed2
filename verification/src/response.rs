//! The response envelope: one decoded payload plus continuation data.

use vstd::prelude::*;

verus! {

/// The envelope returned by one successful call: the decoded payload, the
/// pagination cursor (present iff the server indicates more data), the
/// optional total count of matching items, and the original request,
/// retained so a continuation call can reuse it.
#[derive(Clone, Debug, PartialEq, Eq)]
pub struct Response<Req, D> {
    /// The decoded payload.
    pub data: D,
    /// The pagination cursor; absent means there are no further pages.
    pub pagination: Option<String>,
    /// The request this response answers, retained for continuation.
    pub request: Option<Req>,
    /// Total number of matching items, when the server reports one.
    pub total: Option<i64>,
}

impl<Req, D> Response<Req, D> {
    /// The continuation cursor, if any.
    pub fn cursor(&self) -> (c: &Option<String>)
        ensures
            c == &self.pagination,
    {
        &self.pagination
    }
}

impl<Req, D> Response<Req, Vec<D>> {
    /// The first element of a list payload, consuming the envelope.
    pub fn first(self) -> (r: Option<D>)
        ensures
            self.data@.len() == 0 ==> r is None,
            self.data@.len() > 0 ==> r == Some(self.data@[0]),
    {
        let mut data = self.data;
        if data.len() == 0 {
            None
        } else {
            Some(data.remove(0))
        }
    }
}

} // verus!
