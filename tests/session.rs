use databroker::broker::DataBroker;
use databroker::permissions::{AccessMode, Permissions};
use databroker::session::{
    ProvideActuationRequest, ProviderAction, ProviderResponse, ProviderSession,
    PublishValuesRequest, RpcError, SessionEvent,
};
use databroker::store::{EntryError, EntryStore, EntryType};
use databroker::value::{DataType, DataValue, Timestamp};
use databroker::wire::{TypedValue, ValueState, WireDatapoint};

fn grant(pairs: &[(&str, AccessMode)]) -> Permissions {
    let mut p = Permissions::new();
    for (pattern, mode) in pairs {
        p.add_grant(pattern.to_string(), *mode);
    }
    p
}

fn wire(value: TypedValue) -> WireDatapoint {
    WireDatapoint { timestamp: None, value_state: Some(ValueState::Value(Some(value))) }
}

fn publish(request_id: u32, datapoints: Vec<(i32, WireDatapoint)>) -> SessionEvent {
    SessionEvent::Message(ProviderAction::PublishValues(PublishValuesRequest { request_id, datapoints }))
}

fn lights_store() -> EntryStore {
    let mut s = EntryStore::new();
    assert!(s.register(7, "Vehicle.Lights".to_string(), EntryType::Actuator, DataType::String));
    assert!(s.register(8, "Vehicle.Speed".to_string(), EntryType::Sensor, DataType::Float));
    s
}

fn value_of(s: &EntryStore, id: i32) -> DataValue {
    let p = grant(&[("*", AccessMode::Read)]);
    s.get(&p, id).unwrap().datapoint.value.clone()
}

#[test]
fn publish_answers_with_request_id() {
    let mut store = lights_store();
    let mut session = ProviderSession::open(Some(grant(&[("Vehicle.Lights", AccessMode::Write)]))).unwrap();
    let r = session.step(&mut store, publish(42, vec![(7, wire(TypedValue::String("on".to_string())))]), 100);
    match r {
        Some(ProviderResponse::PublishValues(p)) => {
            assert_eq!(p.request_id, 42);
            assert!(p.status.is_empty());
        }
        other => panic!("unexpected response {:?}", other),
    }
    assert!(value_of(&store, 7).same_as(&DataValue::String("on".to_string())));
    assert!(session.open);
}

#[test]
fn publish_reports_each_failing_id() {
    let mut store = lights_store();
    let mut session = ProviderSession::open(Some(grant(&[("Vehicle.Lights", AccessMode::Write)]))).unwrap();
    let r = session.step(
        &mut store,
        publish(
            5,
            vec![
                (7, wire(TypedValue::String("off".to_string()))),
                (8, wire(TypedValue::Float(1.5f32.to_bits()))),
                (9, wire(TypedValue::Bool(true))),
            ],
        ),
        100,
    );
    match r {
        Some(ProviderResponse::PublishValues(p)) => {
            assert_eq!(p.request_id, 5);
            let mut status = p.status.clone();
            status.sort_by_key(|e| e.0);
            assert_eq!(status, vec![(8, EntryError::PermissionDenied), (9, EntryError::NotFound)]);
        }
        other => panic!("unexpected response {:?}", other),
    }
    assert!(value_of(&store, 7).same_as(&DataValue::String("off".to_string())));
    assert!(value_of(&store, 8).same_as(&DataValue::NotAvailable));
}

#[test]
fn failure_and_missing_values_become_not_available() {
    let mut store = lights_store();
    let mut session = ProviderSession::open(Some(grant(&[("*", AccessMode::Write)]))).unwrap();
    session.step(&mut store, publish(1, vec![(7, wire(TypedValue::String("on".to_string())))]), 10);
    let failed = WireDatapoint { timestamp: Some(Timestamp { seconds: 1, nanos: 2 }), value_state: Some(ValueState::Failure(3)) };
    session.step(&mut store, publish(2, vec![(7, failed)]), 20);
    assert!(value_of(&store, 7).same_as(&DataValue::NotAvailable));
    let p = grant(&[("*", AccessMode::Read)]);
    assert_eq!(store.get(&p, 7).unwrap().datapoint.source_ts, Some(Timestamp { seconds: 1, nanos: 2 }));
    let empty = WireDatapoint { timestamp: None, value_state: Some(ValueState::Value(None)) };
    assert!(DataValue::from_wire(empty).same_as(&DataValue::NotAvailable));
    let none = WireDatapoint { timestamp: None, value_state: None };
    assert!(DataValue::from_wire(none).same_as(&DataValue::NotAvailable));
    assert!(DataValue::from_wire(wire(TypedValue::Int64Array(vec![1, -2]))).same_as(&DataValue::Int64Array(vec![1, -2])));
}

#[test]
fn shutdown_closes_session() {
    let mut store = lights_store();
    let mut session = ProviderSession::open(Some(grant(&[("*", AccessMode::Write)]))).unwrap();
    assert!(session.step(&mut store, SessionEvent::Shutdown, 1).is_none());
    assert!(!session.open);
    let r = session.step(&mut store, publish(3, vec![(7, wire(TypedValue::String("on".to_string())))]), 2);
    assert!(r.is_none());
    assert!(value_of(&store, 7).same_as(&DataValue::NotAvailable));
}

#[test]
fn stream_end_and_transport_error_close_session() {
    let mut store = lights_store();
    let mut a = ProviderSession::open(Some(Permissions::new())).unwrap();
    assert!(a.step(&mut store, SessionEvent::StreamEnded, 1).is_none());
    assert!(!a.open);
    let mut b = ProviderSession::open(Some(Permissions::new())).unwrap();
    assert!(b.step(&mut store, SessionEvent::TransportError, 1).is_none());
    assert!(!b.open);
}

#[test]
fn other_actions_answer_nothing() {
    let mut store = lights_store();
    let mut session = ProviderSession::open(Some(Permissions::new())).unwrap();
    let e = SessionEvent::Message(ProviderAction::BatchActuateStreamResponse);
    assert!(session.step(&mut store, e, 1).is_none());
    assert!(session.step(&mut store, SessionEvent::Message(ProviderAction::Unset), 1).is_none());
    assert!(session.open);
}

#[test]
fn no_grant_is_unauthenticated() {
    assert!(matches!(ProviderSession::open(None), Err(RpcError::Unauthenticated)));
    let broker = DataBroker::new();
    assert!(matches!(broker.open_provider_stream(None), Err(RpcError::Unauthenticated)));
    assert!(broker.open_provider_stream(Some(Permissions::new())).is_ok());
}

#[test]
fn provided_actuation_checks_each_path() {
    let mut store = lights_store();
    let mut session = ProviderSession::open(Some(grant(&[("*", AccessMode::Actuate)]))).unwrap();
    let req = ProvideActuationRequest {
        paths: vec!["Vehicle.Lights".to_string(), "Vehicle.Speed".to_string(), "Vehicle.Nope".to_string()],
    };
    let r = session.step(&mut store, SessionEvent::Message(ProviderAction::ProvideActuation(req)), 1);
    match r {
        Some(ProviderResponse::ProvideActuation(p)) => {
            assert_eq!(
                p.status,
                vec![
                    ("Vehicle.Speed".to_string(), EntryError::InvalidValue),
                    ("Vehicle.Nope".to_string(), EntryError::NotFound)
                ]
            );
        }
        other => panic!("unexpected response {:?}", other),
    }
    assert_eq!(session.provided, vec![7]);
    let mut denied = ProviderSession::open(Some(grant(&[("Vehicle.Speed", AccessMode::Actuate)]))).unwrap();
    let req = ProvideActuationRequest { paths: vec!["Vehicle.Lights".to_string()] };
    match denied.step(&mut store, SessionEvent::Message(ProviderAction::ProvideActuation(req)), 1) {
        Some(ProviderResponse::ProvideActuation(p)) => {
            assert_eq!(p.status, vec![("Vehicle.Lights".to_string(), EntryError::PermissionDenied)]);
        }
        other => panic!("unexpected response {:?}", other),
    }
}

#[test]
fn unimplemented_calls_fail_fast() {
    let broker = DataBroker::new();
    assert!(matches!(broker.get_value(), Err(RpcError::Unimplemented)));
    assert!(matches!(broker.get_values(), Err(RpcError::Unimplemented)));
    assert!(matches!(broker.list_values(), Err(RpcError::Unimplemented)));
    assert_eq!(broker.subscribe(), Err(RpcError::Unimplemented));
    assert_eq!(broker.actuate(), Err(RpcError::Unimplemented));
    assert_eq!(broker.batch_actuate(), Err(RpcError::Unimplemented));
    assert_eq!(broker.list_metadata(), Err(RpcError::Unimplemented));
    assert_eq!(broker.publish_value(), Err(RpcError::Unimplemented));
    assert_eq!(broker.get_server_info(), Err(RpcError::Unimplemented));
}
