use vstd::prelude::*;

verus! {

/// One status report submitted by a client. Reports have no identity of
/// their own: duplicates are legal and are kept in order.
#[derive(Clone, Debug, PartialEq, Eq)]
pub struct Status {
    pub client_id: String,
    pub status: String,
}

impl Status {
    pub fn new(client_id: String, status: String) -> (r: Status)
        ensures
            r.client_id == client_id,
            r.status == status,
    {
        Status { client_id, status }
    }
}

} // verus!
