//! The `/post` endpoint, which echoes the payload it is sent.

use vstd::prelude::*;
use crate::json::{JsonObject, Member, insert_member, json_quoted};
use crate::responder::ApiResponder;

verus! {

/// The body of a request to `/post`.
pub struct Post {
    pub payload: String,
}

/// The JSON members of the echo: the payload under `payload`.
pub open spec fn echo_members(payload: Seq<char>) -> Seq<Member> {
    insert_member(Seq::empty(), "payload"@, json_quoted(payload))
}

/// The answer to `/post`: a success carrying `{"payload": ...}` under `post`.
pub fn post(payload: &Post) -> (r: ApiResponder)
    ensures
        r.success,
        r.message is None,
        r.inner matches Some(v) && v@ == echo_members(payload.payload@),
        r.field_name@ == "post"@,
{
    let mut o = JsonObject::new();
    o.insert_str("payload", payload.payload.as_str());
    ApiResponder::success(Some(o), "post".to_owned())
}

} // verus!
