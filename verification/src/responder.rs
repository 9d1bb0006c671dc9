//! The envelope of every API response: a JSON object with a `success` flag,
//! an error `message` when there is one, and the payload under a field name.

use vstd::prelude::*;
use crate::json::{JsonObject, Member, insert_member, object_text, bool_text, json_quoted, keys_ordered, lemma_insert_member_ordered};

verus! {

/// A response of the monitor's API.
///
/// `inner` holds the payload, a JSON object written under `field_name`.
pub struct ApiResponder {
    pub success: bool,
    pub message: Option<String>,
    pub inner: Option<JsonObject>,
    pub field_name: String,
}

/// The members of the response body: `success`, then `message` when there is
/// one, then the payload under its field name, each set as in a map (a later
/// member with an earlier member's key replaces its value).
pub open spec fn envelope_members(r: ApiResponder) -> Seq<Member> {
    let with_success = insert_member(Seq::empty(), "success"@, bool_text(r.success));
    let with_message = match r.message {
        Some(m) => insert_member(with_success, "message"@, json_quoted(m@)),
        None => with_success,
    };
    match r.inner {
        Some(v) => insert_member(with_message, r.field_name@, object_text(v@)),
        None => with_message,
    }
}

/// `a` is the failed response with the error `message`, as `ApiResponder::error`
/// makes it: no payload, under the field name `error`.
pub open spec fn is_error_reply(a: ApiResponder, message: Seq<char>) -> bool {
    &&& !a.success
    &&& (a.message matches Some(m) && m@ == message)
    &&& a.inner is None
    &&& a.field_name@ == "error"@
}

/// `a` is the successful response with no payload, as
/// `ApiResponder::success_empty` makes it: no message, an empty field name.
pub open spec fn is_empty_success(a: ApiResponder) -> bool {
    &&& a.success
    &&& a.message is None
    &&& a.inner is None
    &&& a.field_name@ == Seq::<char>::empty()
}

impl ApiResponder {
    /// A response with the given parts.
    pub fn new(success: bool, message: Option<String>, inner: Option<JsonObject>, field_name: String) -> (r: Self)
        ensures
            r.success == success,
            r.message == message,
            r.inner == inner,
            r.field_name == field_name,
    {
        ApiResponder { success, message, inner, field_name }
    }

    /// A successful response carrying `inner` under `field_name`.
    pub fn success(inner: Option<JsonObject>, field_name: String) -> (r: Self)
        ensures
            r.success,
            r.message is None,
            r.inner == inner,
            r.field_name == field_name,
    {
        Self::new(true, None, inner, field_name)
    }

    /// A successful response with no payload.
    pub fn success_empty() -> (r: Self)
        ensures
            r.success,
            r.message is None,
            r.inner is None,
            r.field_name@ == Seq::<char>::empty(),
    {
        Self::new(true, None, None, String::new())
    }

    /// A failed response with the error `message`.
    pub fn error(message: String) -> (r: Self)
        ensures
            !r.success,
            r.message == Some(message),
            r.inner is None,
            r.field_name@ == "error"@,
    {
        Self::new(false, Some(message), None, "error".to_owned())
    }

    /// The JSON text of the response body.
    pub fn body(&self) -> (r: String)
        ensures
            r@ == object_text(envelope_members(*self)),
    {
        let mut o = JsonObject::new();
        o.insert_bool("success", self.success);
        match &self.message {
            Some(m) => o.insert_str("message", m.as_str()),
            None => {},
        }
        match &self.inner {
            Some(v) => o.insert_object(self.field_name.as_str(), v),
            None => {},
        }
        o.render()
    }
}

/// The body of every response is a JSON object whose members are ordered by
/// key with no key twice, and that has the payload under its field name when
/// there is one, and the error message under `message` when the field name
/// is another.
pub proof fn law_envelope_members(r: ApiResponder)
    ensures
        keys_ordered(envelope_members(r)),
        r.inner matches Some(v) ==> envelope_members(r).contains((r.field_name@, object_text(v@))),
        r.inner is None ==> (r.message matches Some(m)
            ==> envelope_members(r).contains(("message"@, json_quoted(m@)))),
        r.inner is None && r.message is None
            ==> envelope_members(r) == seq![("success"@, bool_text(r.success))],
{
    let e: Seq<Member> = Seq::empty();
    let m0 = insert_member(e, "success"@, bool_text(r.success));
    lemma_insert_member_ordered(e, "success"@, bool_text(r.success));
    let m1 = match r.message {
        Some(m) => insert_member(m0, "message"@, json_quoted(m@)),
        None => m0,
    };
    match r.message {
        Some(m) => lemma_insert_member_ordered(m0, "message"@, json_quoted(m@)),
        None => {},
    }
    match r.inner {
        Some(v) => lemma_insert_member_ordered(m1, r.field_name@, object_text(v@)),
        None => {},
    }
}

} // verus!
