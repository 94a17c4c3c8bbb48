//! Entry points of the component: initialization, mutation, queries, and
//! the reply correlator for asynchronous child creation.

use vstd::prelude::*;
use vstd::string::StringExecFns;

use crate::INSTANTIATE_REPLY_ID;
use crate::SLAVE_CODE_ID;
use crate::codec::dec_chars;
use crate::codec::i32_to_string;
use crate::codec::json_count;
use crate::codec::json_count_bytes;
use crate::error::ContractError;
use crate::msg::Attribute;
use crate::msg::CountResponse;
use crate::msg::CreationOutcome;
use crate::msg::CreationRequest;
use crate::msg::Event;
use crate::msg::ExecuteMsg;
use crate::msg::InstantiateMsg;
use crate::msg::QueryMsg;
use crate::msg::Reply;
use crate::msg::Response;
use crate::state::spec_get_count;
use crate::state::spec_increment;
use crate::state::spec_init;
use crate::state::State;
use crate::state::StateModel;
use crate::state::Store;

verus! {

/// One attribute with the given key and value.
pub open spec fn attr_is(a: Attribute, key: Seq<char>, value: Seq<char>) -> bool {
    a.key@ == key && a.value@ == value
}

/// The response initialization hands back: no pending requests, and the
/// method, owner and rendered seed value as attributes.
pub open spec fn init_response(r: Response, owner: Seq<char>, count: int) -> bool {
    &&& r.messages@.len() == 0
    &&& r.attributes@.len() == 3
    &&& attr_is(r.attributes@[0], "method"@, "instantiate"@)
    &&& attr_is(r.attributes@[1], "owner"@, owner)
    &&& attr_is(r.attributes@[2], "count"@, dec_chars(count))
}

/// The response an increment hands back: the method attribute alone.
pub open spec fn increment_response(r: Response) -> bool {
    &&& r.messages@.len() == 0
    &&& r.attributes@.len() == 1
    &&& attr_is(r.attributes@[0], "method"@, "try_increment"@)
}

/// Everything an increment does: with a record present the counter grows
/// by one and the call succeeds; with none the store is untouched and the
/// call reports `NotFound`.
pub open spec fn increment_outcome(
    pre: Option<StateModel>,
    post: Option<StateModel>,
    r: Result<Response, ContractError>,
) -> bool {
    match pre {
        Option::Some(_) => {
            &&& post == spec_increment(pre)
            &&& r matches Ok(resp) && increment_response(resp)
        },
        Option::None => {
            &&& post == pre
            &&& r matches Err(e) && e == ContractError::NotFound
        },
    }
}

/// The response a child creation hands back: the method attribute and
/// exactly one pending creation request, tagged with the reserved
/// correlation id and carrying the serialized seed value.
pub open spec fn deploy_response(r: Response, admin: Seq<char>, count: int) -> bool {
    &&& r.attributes@.len() == 1
    &&& attr_is(r.attributes@[0], "method"@, "DeployedSlave"@)
    &&& r.messages@.len() == 1
    &&& r.messages@[0].target_template_id == SLAVE_CODE_ID
    &&& r.messages@[0].payload@ == json_count_bytes(count)
    &&& r.messages@[0].correlation_id == INSTANTIATE_REPLY_ID
    &&& r.messages@[0].admin@ == admin
    &&& r.messages@[0].label@ == "DeployedSlave"@
}

/// First event of the log whose type tag is `instantiate`.
pub open spec fn first_instantiate_event(events: Seq<Event>) -> Option<Event>
    decreases events.len(),
{
    if events.len() == 0 {
        None
    } else if events[0].ty@ == "instantiate"@ {
        Some(events[0])
    } else {
        first_instantiate_event(events.skip(1))
    }
}

/// Value of the first attribute whose key is `_contract_address`.
pub open spec fn first_address_value(attrs: Seq<Attribute>) -> Option<Seq<char>>
    decreases attrs.len(),
{
    if attrs.len() == 0 {
        None
    } else if attrs[0].key@ == "_contract_address"@ {
        Some(attrs[0].value@)
    } else {
        first_address_value(attrs.skip(1))
    }
}

/// The response the correlator hands back on success: no pending requests,
/// the method attribute, and the extracted child address, unmodified.
pub open spec fn reply_response(r: Response, addr: Seq<char>) -> bool {
    &&& r.messages@.len() == 0
    &&& r.attributes@.len() == 2
    &&& attr_is(r.attributes@[0], "method"@, "handle_instantiate_reply"@)
    &&& attr_is(r.attributes@[1], "contract_address"@, addr)
}

/// Everything the correlator decides from one outcome: a reported failure
/// surfaces verbatim; a success without the creation event, or without the
/// address attribute in it, fails with the matching typed error; otherwise
/// the first such attribute's value is returned as the child's address.
pub open spec fn correlated(outcome: CreationOutcome, r: Result<Response, ContractError>) -> bool {
    match outcome {
        CreationOutcome::Failure(m) => {
            r matches Err(e) && e matches ContractError::ChildCreationFailed(t) && t@ == m@
        },
        CreationOutcome::Success(events) => match first_instantiate_event(events@) {
            Option::None => r matches Err(e) && e == ContractError::MissingCreationEvent,
            Option::Some(ev) => match first_address_value(ev.attributes@) {
                Option::None => r matches Err(e) && e == ContractError::MissingAddressAttribute,
                Option::Some(addr) => r matches Ok(resp) && reply_response(resp, addr),
            },
        },
    }
}

/// Build the initial record from the caller-supplied seed and the caller's
/// identity, and persist it.
pub fn instantiate(store: &mut Store, sender: String, msg: InstantiateMsg) -> (r: Result<
    Response,
    ContractError,
>)
    ensures
        final(store)@ == spec_init(msg.count as int, sender@),
        r matches Ok(resp) && init_response(resp, sender@, msg.count as int),
{
    let state = State { count: msg.count, owner: sender.clone() };
    store.save(state);
    let count_text = i32_to_string(msg.count);
    let resp = Response::new().add_attribute(
        String::from_str("method"),
        String::from_str("instantiate"),
    ).add_attribute(String::from_str("owner"), sender).add_attribute(
        String::from_str("count"),
        count_text,
    );
    Ok(resp)
}

/// Route a mutating call to its handler.
pub fn execute(store: &mut Store, own_address: String, msg: ExecuteMsg) -> (r: Result<
    Response,
    ContractError,
>)
    requires
        msg matches ExecuteMsg::Increment ==> match old(store)@ {
            Option::Some(m) => m.count < i32::MAX,
            Option::None => true,
        },
    ensures
        match msg {
            ExecuteMsg::Increment => increment_outcome(old(store)@, final(store)@, r),
            ExecuteMsg::DeploySlave { count } => {
                &&& final(store)@ == old(store)@
                &&& r matches Ok(resp) && deploy_response(resp, own_address@, count as int)
            },
        },
{
    match msg {
        ExecuteMsg::Increment => try_increment(store),
        ExecuteMsg::DeploySlave { count } => deploy_slave(own_address, count),
    }
}

/// Load the record, add one to its counter, and persist the result.
pub fn try_increment(store: &mut Store) -> (r: Result<Response, ContractError>)
    requires
        match old(store)@ {
            Option::Some(m) => m.count < i32::MAX,
            Option::None => true,
        },
    ensures
        increment_outcome(old(store)@, final(store)@, r),
{
    let state = store.load()?;
    store.save(State { count: state.count + 1, owner: state.owner });
    let resp = Response::new().add_attribute(
        String::from_str("method"),
        String::from_str("try_increment"),
    );
    Ok(resp)
}

/// Build the child-creation request: the fixed code template, the
/// serialized seed value, this component's own address as administrator,
/// and the reserved correlation id for the host to echo back.
pub fn deploy_slave(own_address: String, count: i32) -> (r: Result<Response, ContractError>)
    ensures
        r matches Ok(resp) && deploy_response(resp, own_address@, count as int),
{
    let request = CreationRequest {
        target_template_id: SLAVE_CODE_ID,
        payload: json_count(count),
        correlation_id: INSTANTIATE_REPLY_ID,
        admin: own_address,
        label: String::from_str("DeployedSlave"),
    };
    let resp = Response::new().add_attribute(
        String::from_str("method"),
        String::from_str("DeployedSlave"),
    ).add_submessage(request);
    Ok(resp)
}

/// Route a read-only call to its handler and serialize the answer.
pub fn query(store: &Store, msg: QueryMsg) -> (r: Result<Vec<u8>, ContractError>)
    ensures
        match msg {
            QueryMsg::GetCount => match store@ {
                Option::Some(m) => r matches Ok(b) && b@ == json_count_bytes(m.count),
                Option::None => r matches Err(e) && e == ContractError::NotFound,
            },
        },
{
    match msg {
        QueryMsg::GetCount => {
            let answer = query_count(store)?;
            Ok(json_count(answer.count))
        },
    }
}

/// Read the persisted counter.
pub fn query_count(store: &Store) -> (r: Result<CountResponse, ContractError>)
    ensures
        match spec_get_count(store@) {
            Option::Some(c) => r matches Ok(cr) && cr.count as int == c,
            Option::None => r matches Err(e) && e == ContractError::NotFound,
        },
{
    let state = store.load()?;
    Ok(CountResponse { count: state.count })
}

/// Route the host's callback by its correlation id: the reserved id goes
/// to the correlator, any other id is unroutable.
pub fn reply(msg: Reply) -> (r: Result<Response, ContractError>)
    ensures
        msg.id == INSTANTIATE_REPLY_ID ==> correlated(msg.outcome, r),
        msg.id != INSTANTIATE_REPLY_ID ==> (r matches Err(e) && e
            == ContractError::UnroutableMessage),
{
    if msg.id == INSTANTIATE_REPLY_ID {
        handle_instantiate_reply(msg)
    } else {
        Err(ContractError::UnroutableMessage)
    }
}

/// Correlate one creation outcome: validate success, scan the event log
/// for the creation confirmation, and extract the child's address.
pub fn handle_instantiate_reply(msg: Reply) -> (r: Result<Response, ContractError>)
    ensures
        correlated(msg.outcome, r),
{
    let events: Vec<Event> = match msg.outcome {
        CreationOutcome::Success(events) => events,
        CreationOutcome::Failure(err) => {
            return Err(ContractError::ChildCreationFailed(err));
        },
    };
    let idx = match find_instantiate_event(&events) {
        Option::Some(i) => i,
        Option::None => {
            return Err(ContractError::MissingCreationEvent);
        },
    };
    let event = &events[idx];
    let attr_idx = match find_address_attribute(&event.attributes) {
        Option::Some(j) => j,
        Option::None => {
            return Err(ContractError::MissingAddressAttribute);
        },
    };
    let contract_address = event.attributes[attr_idx].value.clone();
    let resp = Response::new().add_attribute(
        String::from_str("method"),
        String::from_str("handle_instantiate_reply"),
    ).add_attribute(String::from_str("contract_address"), contract_address);
    Ok(resp)
}

/// Index of the first event whose type tag is `instantiate`.
fn find_instantiate_event(events: &Vec<Event>) -> (r: Option<usize>)
    ensures
        match r {
            Option::Some(i) => i < events@.len() && first_instantiate_event(events@) == Some(
                events@[i as int],
            ),
            Option::None => first_instantiate_event(events@) is None,
        },
{
    let needle = String::from_str("instantiate");
    let n = events.len();
    let mut i: usize = 0;
    proof {
        assert(events@.skip(0) =~= events@);
    }
    while i < n
        invariant
            n == events@.len(),
            i <= n,
            needle@ == "instantiate"@,
            first_instantiate_event(events@) == first_instantiate_event(
                events@.skip(i as int),
            ),
        decreases n - i,
    {
        let hit = events[i].ty == needle;
        proof {
            assert(events@.skip(i as int)[0] == events@[i as int]);
        }
        if hit {
            return Some(i);
        }
        proof {
            assert(events@.skip(i as int).skip(1) =~= events@.skip(i as int + 1));
        }
        i = i + 1;
    }
    proof {
        assert(events@.skip(n as int).len() == 0);
    }
    None
}

/// Index of the first attribute whose key is `_contract_address`.
fn find_address_attribute(attrs: &Vec<Attribute>) -> (r: Option<usize>)
    ensures
        match r {
            Option::Some(j) => j < attrs@.len() && first_address_value(attrs@) == Some(
                attrs@[j as int].value@,
            ),
            Option::None => first_address_value(attrs@) is None,
        },
{
    let needle = String::from_str("_contract_address");
    let n = attrs.len();
    let mut j: usize = 0;
    proof {
        assert(attrs@.skip(0) =~= attrs@);
    }
    while j < n
        invariant
            n == attrs@.len(),
            j <= n,
            needle@ == "_contract_address"@,
            first_address_value(attrs@) == first_address_value(attrs@.skip(j as int)),
        decreases n - j,
    {
        let hit = attrs[j].key == needle;
        proof {
            assert(attrs@.skip(j as int)[0] == attrs@[j as int]);
        }
        if hit {
            return Some(j);
        }
        proof {
            assert(attrs@.skip(j as int).skip(1) =~= attrs@.skip(j as int + 1));
        }
        j = j + 1;
    }
    proof {
        assert(attrs@.skip(n as int).len() == 0);
    }
    None
}

} // verus!
