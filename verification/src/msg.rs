//! The message surface: inbound calls, callback payloads, and the values an
//! entry point hands back to the host.

use vstd::prelude::*;

verus! {

/// Seed value for the initial record.
pub struct InstantiateMsg {
    pub count: i32,
}

/// State-mutating calls.
pub enum ExecuteMsg {
    /// Add one to the persisted counter.
    Increment,
    /// Ask the host to create a child instance, forwarding `count` to the
    /// child's own initializer.
    DeploySlave { count: i32 },
}

/// Read-only calls.
pub enum QueryMsg {
    /// Return the persisted counter.
    GetCount,
}

/// Answer to [`QueryMsg::GetCount`].
pub struct CountResponse {
    pub count: i32,
}

/// One key/value pair of an event, or of a response's attribute list.
/// Keys are not guaranteed unique; lookups take the first match.
pub struct Attribute {
    pub key: String,
    pub value: String,
}

/// One entry of the host's event log: a type tag and its attributes, both
/// ordered as the host produced them.
pub struct Event {
    pub ty: String,
    pub attributes: Vec<Attribute>,
}

/// What the host reports for an executed child-creation request,
/// delivered exactly once per correlation id.
pub enum CreationOutcome {
    /// The creation committed; the host's event log describes it.
    Success(Vec<Event>),
    /// The creation failed; the message says why.
    Failure(String),
}

/// The single callback the host delivers for a pending creation request.
pub struct Reply {
    /// Correlation id of the request this callback answers.
    pub id: u64,
    pub outcome: CreationOutcome,
}

/// A child-creation request the component returns to the host to execute
/// out of band. Ownership passes to the host; the component never touches
/// it again.
pub struct CreationRequest {
    /// Code template the host instantiates.
    pub target_template_id: u64,
    /// Serialized initializer message for the child.
    pub payload: Vec<u8>,
    /// Token the host echoes back in the callback.
    pub correlation_id: u64,
    /// Address registered as the child's administrator.
    pub admin: String,
    /// Human-readable label for the child instance.
    pub label: String,
}

/// What an entry point hands back to the host on success.
pub struct Response {
    pub attributes: Vec<Attribute>,
    pub messages: Vec<CreationRequest>,
}

impl Response {
    /// An empty response: no attributes, no pending requests.
    pub fn new() -> (r: Response)
        ensures
            r.attributes@ == Seq::<Attribute>::empty(),
            r.messages@ == Seq::<CreationRequest>::empty(),
    {
        Response { attributes: Vec::new(), messages: Vec::new() }
    }

    /// Append one attribute, keeping the existing ones in order.
    pub fn add_attribute(self, key: String, value: String) -> (r: Response)
        ensures
            r.attributes@ == self.attributes@.push((Attribute { key, value })),
            r.messages@ == self.messages@,
    {
        let mut attributes = self.attributes;
        attributes.push(Attribute { key, value });
        Response { attributes, messages: self.messages }
    }

    /// Append one pending creation request, keeping the existing ones in
    /// order.
    pub fn add_submessage(self, message: CreationRequest) -> (r: Response)
        ensures
            r.attributes@ == self.attributes@,
            r.messages@ == self.messages@.push(message),
    {
        let mut messages = self.messages;
        messages.push(message);
        Response { attributes: self.attributes, messages }
    }
}

} // verus!
