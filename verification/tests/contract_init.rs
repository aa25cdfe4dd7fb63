use step_by_step::contract::{instantiate, query, query_config};
use step_by_step::error::ContractError;
use step_by_step::msg::{InstantiateMsg, QueryMsg};
use step_by_step::response::AttributeValue;

#[test]
fn proper_initialization() {
    let msg = InstantiateMsg { comission: 6 };

    let (state, res) = instantiate("creator".to_string(), msg).unwrap();
    assert_eq!(0, res.messages.len());

    let value = query(&state, QueryMsg::Config {});
    assert_eq!(6, value.comission);
}

#[test]
fn instantiate_records_owner_and_attributes() {
    let (state, res) = instantiate("creator".to_string(), InstantiateMsg { comission: 0 }).unwrap();
    assert_eq!(state.owner, "creator");
    assert_eq!(state.comission, 0);
    assert_eq!(res.attributes.len(), 2);
    assert_eq!(res.attributes[0].key, "method");
    assert_eq!(
        res.attributes[0].value,
        AttributeValue::Text("instantiate".to_string())
    );
    assert_eq!(res.attributes[1].key, "owner");
    assert_eq!(
        res.attributes[1].value,
        AttributeValue::Text("creator".to_string())
    );
}

#[test]
fn commission_above_range_rejected() {
    let err = instantiate("creator".to_string(), InstantiateMsg { comission: 101 }).unwrap_err();
    assert_eq!(err, ContractError::InvalidCommission { comission: 101 });
}

#[test]
fn commission_below_range_rejected() {
    let err = instantiate("creator".to_string(), InstantiateMsg { comission: -1 }).unwrap_err();
    assert_eq!(err, ContractError::InvalidCommission { comission: -1 });
}

#[test]
fn commission_boundaries_accepted() {
    let (state, _) = instantiate("a".to_string(), InstantiateMsg { comission: 100 }).unwrap();
    assert_eq!(query_config(&state).comission, 100);
    let (state, _) = instantiate("a".to_string(), InstantiateMsg { comission: 0 }).unwrap();
    assert_eq!(query_config(&state).comission, 0);
}
