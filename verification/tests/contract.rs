use empty_master::contract::{
    deploy_slave, execute, handle_instantiate_reply, instantiate, query, query_count, reply,
    try_increment,
};
use empty_master::error::ContractError;
use empty_master::msg::{
    Attribute, CreationOutcome, Event, ExecuteMsg, InstantiateMsg, QueryMsg, Reply,
};
use empty_master::state::Store;
use empty_master::{INSTANTIATE_REPLY_ID, SLAVE_CODE_ID};

fn attr(key: &str, value: &str) -> Attribute {
    Attribute {
        key: key.to_string(),
        value: value.to_string(),
    }
}

fn event(ty: &str, attributes: Vec<Attribute>) -> Event {
    Event {
        ty: ty.to_string(),
        attributes,
    }
}

#[test]
fn proper_initialization() {
    let mut deps = Store::new();

    let msg = InstantiateMsg { count: 17 };

    // we can just call .unwrap() to assert this was a success
    let res = instantiate(&mut deps, "creator".to_string(), msg).unwrap();
    assert_eq!(0, res.messages.len());

    // it worked, let's query the state
    let res = query(&deps, QueryMsg::GetCount).unwrap();
    let value = String::from_utf8(res).unwrap();
    assert_eq!(format!("{{\"count\":{}}}", 17), value);
}

#[test]
fn increment() {
    let mut deps = Store::new();

    let msg = InstantiateMsg { count: 17 };
    let _res = instantiate(&mut deps, "creator".to_string(), msg).unwrap();

    // anyone can increment
    let msg = ExecuteMsg::Increment;
    let _res = execute(&mut deps, "anyone".to_string(), msg).unwrap();

    // should increase counter by 1
    let res = query(&deps, QueryMsg::GetCount).unwrap();
    let value = String::from_utf8(res).unwrap();
    assert_eq!(format!("{{\"count\":{}}}", 18), value);
}

#[test]
fn init_records_owner_and_count() {
    let mut store = Store::new();
    let res = instantiate(&mut store, "creator".to_string(), InstantiateMsg { count: -7 }).unwrap();
    assert_eq!(3, res.attributes.len());
    assert_eq!("method", res.attributes[0].key);
    assert_eq!("instantiate", res.attributes[0].value);
    assert_eq!("owner", res.attributes[1].key);
    assert_eq!("creator", res.attributes[1].value);
    assert_eq!("count", res.attributes[2].key);
    assert_eq!("-7", res.attributes[2].value);

    let value = query_count(&store).unwrap();
    assert_eq!(-7, value.count);
}

#[test]
fn query_before_init_is_not_found() {
    let store = Store::new();
    let res = query(&store, QueryMsg::GetCount);
    assert!(matches!(res, Err(ContractError::NotFound)));
}

#[test]
fn increment_before_init_is_not_found() {
    let mut store = Store::new();
    let res = try_increment(&mut store);
    assert!(matches!(res, Err(ContractError::NotFound)));
    assert!(store.state.is_none());
}

#[test]
fn deploy_slave_emits_one_tagged_request() {
    let mut store = Store::new();
    instantiate(&mut store, "creator".to_string(), InstantiateMsg { count: 17 }).unwrap();

    let res = execute(
        &mut store,
        "master_address".to_string(),
        ExecuteMsg::DeploySlave { count: 5 },
    )
    .unwrap();

    assert_eq!(1, res.attributes.len());
    assert_eq!("method", res.attributes[0].key);
    assert_eq!("DeployedSlave", res.attributes[0].value);

    assert_eq!(1, res.messages.len());
    let request = &res.messages[0];
    assert_eq!(INSTANTIATE_REPLY_ID, request.correlation_id);
    assert_eq!(SLAVE_CODE_ID, request.target_template_id);
    assert_eq!(b"{\"count\":5}".to_vec(), request.payload);
    assert_eq!("master_address", request.admin);
    assert_eq!("DeployedSlave", request.label);

    // issuing the request leaves the record untouched
    assert_eq!(17, query_count(&store).unwrap().count);
}

#[test]
fn deploy_slave_without_store_state() {
    let res = deploy_slave("addr".to_string(), -3).unwrap();
    assert_eq!(b"{\"count\":-3}".to_vec(), res.messages[0].payload);
}

#[test]
fn reply_extracts_child_address() {
    let msg = Reply {
        id: INSTANTIATE_REPLY_ID,
        outcome: CreationOutcome::Success(vec![event(
            "instantiate",
            vec![attr("_contract_address", "addr123")],
        )]),
    };
    let res = reply(msg).unwrap();
    assert_eq!(2, res.attributes.len());
    assert_eq!("method", res.attributes[0].key);
    assert_eq!("handle_instantiate_reply", res.attributes[0].value);
    assert_eq!("contract_address", res.attributes[1].key);
    assert_eq!("addr123", res.attributes[1].value);
    assert_eq!(0, res.messages.len());
}

#[test]
fn reply_takes_first_instantiate_event_and_first_address() {
    let msg = Reply {
        id: INSTANTIATE_REPLY_ID,
        outcome: CreationOutcome::Success(vec![
            event("wasm", vec![attr("_contract_address", "ignored")]),
            event(
                "instantiate",
                vec![
                    attr("code_id", "9552"),
                    attr("_contract_address", "first"),
                    attr("_contract_address", "second"),
                ],
            ),
            event("instantiate", vec![attr("_contract_address", "later")]),
        ]),
    };
    let res = handle_instantiate_reply(msg).unwrap();
    assert_eq!("first", res.attributes[1].value);
}

#[test]
fn reply_without_instantiate_event_fails() {
    let msg = Reply {
        id: INSTANTIATE_REPLY_ID,
        outcome: CreationOutcome::Success(vec![event(
            "wasm",
            vec![attr("_contract_address", "addr123")],
        )]),
    };
    let res = handle_instantiate_reply(msg);
    assert!(matches!(res, Err(ContractError::MissingCreationEvent)));
}

#[test]
fn reply_without_address_attribute_fails() {
    let msg = Reply {
        id: INSTANTIATE_REPLY_ID,
        outcome: CreationOutcome::Success(vec![event("instantiate", vec![attr("code_id", "1")])]),
    };
    let res = handle_instantiate_reply(msg);
    assert!(matches!(res, Err(ContractError::MissingAddressAttribute)));
}

#[test]
fn reply_surfaces_reported_failure() {
    let mut store = Store::new();
    instantiate(&mut store, "creator".to_string(), InstantiateMsg { count: 17 }).unwrap();

    let msg = Reply {
        id: INSTANTIATE_REPLY_ID,
        outcome: CreationOutcome::Failure("insufficient funds".to_string()),
    };
    let res = reply(msg);
    assert!(matches!(
        res,
        Err(ContractError::ChildCreationFailed(m)) if m == "insufficient funds"
    ));

    // the failure leaves the record untouched
    assert_eq!(17, query_count(&store).unwrap().count);
}

#[test]
fn reply_with_unknown_id_is_unroutable() {
    let msg = Reply {
        id: 2,
        outcome: CreationOutcome::Success(vec![]),
    };
    let res = reply(msg);
    assert!(matches!(res, Err(ContractError::UnroutableMessage)));
}

#[test]
fn two_increments_add_two() {
    let mut store = Store::new();
    instantiate(&mut store, "creator".to_string(), InstantiateMsg { count: 40 }).unwrap();
    try_increment(&mut store).unwrap();
    try_increment(&mut store).unwrap();
    assert_eq!(42, query_count(&store).unwrap().count);
}
