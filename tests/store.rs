use databroker::permissions::{pattern_matches_path, AccessMode, Permissions};
use databroker::store::{
    fits, Datapoint, EntryError, EntryStore, EntryType, EntryUpdate,
};
use databroker::types::Signal;
use databroker::value::{DataType, DataValue, Timestamp};

fn grant(pairs: &[(&str, AccessMode)]) -> Permissions {
    let mut p = Permissions::new();
    for (pattern, mode) in pairs {
        p.add_grant(pattern.to_string(), *mode);
    }
    p
}

fn all_access() -> Permissions {
    grant(&[("*", AccessMode::Read), ("*", AccessMode::Write), ("*", AccessMode::Actuate)])
}

fn value_update(value: DataValue) -> EntryUpdate {
    EntryUpdate::datapoint(Datapoint { value, ts: 0, source_ts: None })
}

fn store_with(entries: &[(i32, &str, EntryType, DataType)]) -> EntryStore {
    let mut s = EntryStore::new();
    for (id, path, et, dt) in entries {
        assert!(s.register(*id, path.to_string(), *et, *dt));
    }
    s
}

fn speed_store() -> EntryStore {
    store_with(&[
        (1, "Vehicle.Speed", EntryType::Sensor, DataType::Float),
        (3, "Vehicle.Cabin.Door", EntryType::Actuator, DataType::Bool),
    ])
}

fn value_of(s: &EntryStore, id: i32) -> DataValue {
    s.get(&all_access(), id).unwrap().datapoint.value.clone()
}

#[test]
fn update_then_get_sees_new_value() {
    let mut s = speed_store();
    let perms = all_access();
    let before = s.get(&perms, 1).unwrap().datapoint.ts;
    let v = DataValue::Float(42.5f32.to_bits());
    assert_eq!(s.update_entry(&perms, 1, value_update(v), 1_000), Ok(()));
    let e = s.get(&perms, 1).unwrap();
    assert!(e.datapoint.value.same_as(&DataValue::Float(42.5f32.to_bits())));
    assert!(e.datapoint.ts >= before);
    assert_eq!(e.datapoint.ts, 1_000);
}

#[test]
fn broker_time_never_runs_backwards() {
    let mut s = speed_store();
    let perms = all_access();
    s.update_entry(&perms, 1, value_update(DataValue::Float(1)), 5_000).unwrap();
    s.update_entry(&perms, 3, value_update(DataValue::Bool(true)), 2_000).unwrap();
    assert_eq!(s.get(&perms, 3).unwrap().datapoint.ts, 5_000);
}

#[test]
fn unknown_id_is_not_found_and_changes_nothing() {
    let mut s = speed_store();
    let perms = all_access();
    assert_eq!(
        s.update_entry(&perms, 2, value_update(DataValue::Bool(true)), 10),
        Err(EntryError::NotFound)
    );
    assert_eq!(s.get(&perms, 2).err(), Some(EntryError::NotFound));
    assert!(value_of(&s, 1).same_as(&DataValue::NotAvailable));
    assert!(value_of(&s, 3).same_as(&DataValue::NotAvailable));
}

#[test]
fn unknown_id_in_batch_leaves_others_alone() {
    let mut s = speed_store();
    let perms = all_access();
    let r = s.update_entries(
        &perms,
        vec![(1, value_update(DataValue::Float(7))), (99, value_update(DataValue::Bool(true)))],
        10,
    );
    assert_eq!(r, Err(vec![(99, EntryError::NotFound)]));
    assert!(value_of(&s, 1).same_as(&DataValue::Float(7)));
    assert!(value_of(&s, 3).same_as(&DataValue::NotAvailable));
}

#[test]
fn same_update_twice_keeps_value() {
    let mut s = store_with(&[(5, "Vehicle.Name", EntryType::Attribute, DataType::String)]);
    let perms = all_access();
    s.update_entry(&perms, 5, value_update(DataValue::String("x".to_string())), 10).unwrap();
    let first = value_of(&s, 5);
    s.update_entry(&perms, 5, value_update(DataValue::String("x".to_string())), 20).unwrap();
    assert!(value_of(&s, 5).same_as(&first));
    assert_eq!(s.get(&perms, 5).unwrap().datapoint.ts, 20);
}

#[test]
fn read_grant_refuses_writes_and_other_paths() {
    let mut s = speed_store();
    let perms = grant(&[("Vehicle.Speed", AccessMode::Read)]);
    assert!(s.get(&perms, 1).is_ok());
    assert_eq!(
        s.update_entry(&perms, 1, value_update(DataValue::Float(3)), 10),
        Err(EntryError::PermissionDenied)
    );
    assert_eq!(s.get(&perms, 3).err(), Some(EntryError::PermissionDenied));
    assert_eq!(
        s.update_entry(&perms, 3, value_update(DataValue::Bool(true)), 10),
        Err(EntryError::PermissionDenied)
    );
    assert!(value_of(&s, 1).same_as(&DataValue::NotAvailable));
}

#[test]
fn actuator_target_needs_actuate() {
    let mut s = speed_store();
    let perms = grant(&[("Vehicle.*", AccessMode::Write)]);
    let u = EntryUpdate {
        path: None,
        datapoint: None,
        actuator_target: Some(Datapoint { value: DataValue::Bool(true), ts: 0, source_ts: None }),
        entry_type: None,
        data_type: None,
        description: None,
        allowed: None,
        unit: None,
    };
    assert_eq!(s.update_entry(&perms, 3, u, 10), Err(EntryError::PermissionDenied));
}

#[test]
fn batch_partial_failure() {
    let mut s = store_with(&[
        (1, "Vehicle.A", EntryType::Sensor, DataType::Int32),
        (3, "Vehicle.C", EntryType::Sensor, DataType::Int32),
    ]);
    let perms = all_access();
    let r = s.update_entries(
        &perms,
        vec![
            (1, value_update(DataValue::Int32(10))),
            (2, value_update(DataValue::Int32(20))),
            (3, value_update(DataValue::Int32(30))),
        ],
        100,
    );
    assert_eq!(r, Err(vec![(2, EntryError::NotFound)]));
    assert!(value_of(&s, 1).same_as(&DataValue::Int32(10)));
    assert!(value_of(&s, 3).same_as(&DataValue::Int32(30)));
}

#[test]
fn batch_all_good_is_ok() {
    let mut s = speed_store();
    let perms = all_access();
    let r = s.update_entries(
        &perms,
        vec![(1, value_update(DataValue::Float(1))), (3, value_update(DataValue::Bool(false)))],
        100,
    );
    assert_eq!(r, Ok(()));
}

#[test]
fn wrong_type_is_invalid_value() {
    let mut s = speed_store();
    let perms = all_access();
    assert_eq!(
        s.update_entry(&perms, 1, value_update(DataValue::Int32(3)), 10),
        Err(EntryError::InvalidValue)
    );
    assert!(value_of(&s, 1).same_as(&DataValue::NotAvailable));
}

#[test]
fn not_available_fits_any_type() {
    let mut s = speed_store();
    let perms = all_access();
    s.update_entry(&perms, 1, value_update(DataValue::Float(9)), 10).unwrap();
    assert_eq!(s.update_entry(&perms, 1, value_update(DataValue::NotAvailable), 11), Ok(()));
    assert!(value_of(&s, 1).same_as(&DataValue::NotAvailable));
}

#[test]
fn allowed_set_is_enforced() {
    let mut s = store_with(&[(4, "Vehicle.Gear", EntryType::Sensor, DataType::String)]);
    let perms = all_access();
    let set_allowed = EntryUpdate {
        path: None,
        datapoint: None,
        actuator_target: None,
        entry_type: None,
        data_type: None,
        description: Some("gear".to_string()),
        allowed: Some(vec![DataValue::String("P".to_string()), DataValue::String("D".to_string())]),
        unit: None,
    };
    assert_eq!(s.update_entry(&perms, 4, set_allowed, 1), Ok(()));
    assert_eq!(s.get(&perms, 4).unwrap().description.as_deref(), Some("gear"));
    assert_eq!(
        s.update_entry(&perms, 4, value_update(DataValue::String("R".to_string())), 2),
        Err(EntryError::InvalidValue)
    );
    assert_eq!(
        s.update_entry(&perms, 4, value_update(DataValue::String("D".to_string())), 3),
        Ok(())
    );
    let allowed = Some(vec![DataValue::Int32Array(vec![1, 2])]);
    assert!(fits(&DataValue::Int32Array(vec![1, 2]), DataType::Int32Array, &allowed));
    assert!(!fits(&DataValue::Int32Array(vec![2, 1]), DataType::Int32Array, &allowed));
}

#[test]
fn source_timestamp_is_kept() {
    let mut s = speed_store();
    let perms = all_access();
    let src = Timestamp { seconds: 17, nanos: 5 };
    let u = EntryUpdate::datapoint(Datapoint { value: DataValue::Float(2), ts: 3, source_ts: Some(src) });
    s.update_entry(&perms, 1, u, 50).unwrap();
    let e = s.get(&perms, 1).unwrap();
    assert_eq!(e.datapoint.source_ts, Some(src));
    assert_eq!(e.datapoint.ts, 50);
}

#[test]
fn register_refuses_taken_id_or_path() {
    let mut s = speed_store();
    assert!(!s.register(1, "Vehicle.Other".to_string(), EntryType::Sensor, DataType::Bool));
    assert!(!s.register(8, "Vehicle.Speed".to_string(), EntryType::Sensor, DataType::Bool));
    assert!(s.register(8, "Vehicle.Other".to_string(), EntryType::Sensor, DataType::Bool));
    assert_eq!(s.find_id(8), Some(2));
    assert_eq!(s.find_path(&"Vehicle.Other".to_string()), Some(2));
}

#[test]
fn patterns_match_paths() {
    assert!(pattern_matches_path("Vehicle.Speed", "Vehicle.Speed"));
    assert!(!pattern_matches_path("Vehicle.Speed", "Vehicle.SpeedX"));
    assert!(pattern_matches_path("*", "Anything.At.All"));
    assert!(pattern_matches_path("Vehicle.*", "Vehicle.Cabin.Door"));
    assert!(!pattern_matches_path("Vehicle.*", "Vehicles.Door"));
    assert!(!pattern_matches_path("Vehicle.*", "Vehicle"));
}

#[test]
fn values_compare_by_type_and_content() {
    assert!(DataValue::StringArray(vec!["a".to_string()]).same_as(&DataValue::StringArray(vec!["a".to_string()])));
    assert!(!DataValue::StringArray(vec!["a".to_string()]).same_as(&DataValue::StringArray(vec!["b".to_string()])));
    assert!(!DataValue::Uint32(1).same_as(&DataValue::Float(1)));
    assert_eq!(DataValue::DoubleArray(vec![]).data_type(), Some(DataType::DoubleArray));
    assert_eq!(DataValue::NotAvailable.data_type(), None);
}

#[test]
fn signal_new_keeps_id_and_path() {
    let s = Signal::new(7, "Vehicle.Speed");
    assert_eq!(s.id, 7);
    assert_eq!(s.path, "Vehicle.Speed");
}

#[test]
fn list_shows_readable_entries() {
    let s = speed_store();
    assert_eq!(s.list(&all_access()), vec![1, 3]);
    assert_eq!(s.list(&grant(&[("Vehicle.Cabin.*", AccessMode::Read)])), vec![3]);
    assert_eq!(s.list(&grant(&[("Vehicle.Speed", AccessMode::Write)])), Vec::<i32>::new());
}
