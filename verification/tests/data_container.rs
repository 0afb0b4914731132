use std::collections::hash_map::DefaultHasher;
use std::collections::BTreeMap;
use std::hash::{Hash, Hasher};

use epsilon_core::data_container::{DataKind, DataValue};
use epsilon_core::data_types::DataTypes;

fn sample_key_bool() -> DataTypes {
    DataTypes::accepted
}

fn sample_key_num() -> DataTypes {
    DataTypes::user_id
}

fn sample_key_str() -> DataTypes {
    DataTypes::username
}

fn hash_of(v: &DataValue) -> u64 {
    let mut hasher = DefaultHasher::new();
    v.hash(&mut hasher);
    hasher.finish()
}

#[test]
fn test_kind_basic_types() {
    assert_eq!(DataValue::BoolTrue.kind(), DataKind::Bool);
    assert_eq!(DataValue::BoolFalse.kind(), DataKind::Bool);
    assert_eq!(DataValue::Bool(true).kind(), DataKind::Bool);
    assert_eq!(DataValue::Number(42).kind(), DataKind::Number);
    assert_eq!(DataValue::Str("hello".into()).kind(), DataKind::Str);
    assert_eq!(DataValue::Null.kind(), DataKind::Null);
}

#[test]
fn test_kind_array() {
    let arr = DataValue::Array(vec![DataValue::Number(1), DataValue::Number(2)]);

    match arr.kind() {
        DataKind::Array(inner) => {
            assert_eq!(*inner, DataKind::Number);
        }
        _ => panic!("Expected Array kind"),
    }
}

#[test]
#[should_panic]
fn test_kind_array_empty_panics() {
    let arr = DataValue::Array(vec![]);
    arr.kind();
}

#[test]
fn test_as_bool() {
    assert_eq!(DataValue::BoolTrue.as_bool(), Some(true));
    assert_eq!(DataValue::BoolFalse.as_bool(), Some(false));
    assert_eq!(DataValue::Bool(true).as_bool(), Some(true));
    assert_eq!(DataValue::Number(1).as_bool(), None);
}

#[test]
fn test_as_str_and_string() {
    let value = DataValue::Str("hello".into());

    assert_eq!(value.as_str(), Some("hello"));
    assert_eq!(value.as_string(), Some("hello".to_string()));
    assert_eq!(DataValue::Number(10).as_str(), None);
}

#[test]
fn test_as_number() {
    let value = DataValue::Number(123);
    assert_eq!(value.as_number(), Some(123));
    assert_eq!(DataValue::BoolTrue.as_number(), None);
}

#[test]
fn test_as_array() {
    let arr = vec![DataValue::Number(1)];
    let value = DataValue::Array(arr.clone());

    assert_eq!(value.as_array(), Some(arr));
    assert_eq!(DataValue::Null.as_array(), None);
}

#[test]
fn test_container_from_map_and_as_map() {
    let mut map = BTreeMap::new();
    map.insert(sample_key_num(), DataValue::Number(1));
    map.insert(sample_key_str(), DataValue::Str("x".into()));

    let container = DataValue::container_from_map(&map);

    let result_map = container.as_map().unwrap();

    assert_eq!(map.len(), result_map.len());
    assert_eq!(map.get(&sample_key_str()), result_map.get(&sample_key_str()));
    assert_eq!(map.get(&sample_key_num()), result_map.get(&sample_key_num()));
}

#[test]
fn test_as_container() {
    let mut map = BTreeMap::new();
    map.insert(sample_key_bool(), DataValue::Number(10));

    let container = DataValue::container_from_map(&map);
    let vec_form = container.as_container().unwrap();

    assert_eq!(vec_form.len(), 1);
    assert_eq!(vec_form[0].1, DataValue::Number(10));
}

#[test]
fn test_equality() {
    assert_eq!(DataValue::Number(5), DataValue::Number(5));
    assert_ne!(DataValue::Number(5), DataValue::Number(6));
    assert_eq!(DataValue::BoolTrue, DataValue::BoolTrue);
    assert_ne!(DataValue::BoolTrue, DataValue::BoolFalse);
    assert_eq!(DataValue::Bool(true), DataValue::BoolTrue);
    assert_ne!(DataValue::Bool(true), DataValue::BoolFalse);
}

#[test]
fn kind_of_nested_array_follows_first_elements() {
    let nested = DataValue::Array(vec![DataValue::Array(vec![DataValue::Str("a".into())]), DataValue::Null]);
    assert_eq!(nested.kind(), DataKind::Array(Box::new(DataKind::Array(Box::new(DataKind::Str)))));
    let container = DataValue::Container(vec![]);
    assert_eq!(container.kind(), DataKind::Container);
}

#[test]
fn accessors_refuse_other_variants() {
    assert_eq!(DataValue::Str("1".into()).as_number(), None);
    assert_eq!(DataValue::Null.as_bool(), None);
    assert_eq!(DataValue::Null.as_string(), None);
    assert_eq!(DataValue::Number(3).as_container(), None);
    assert!(DataValue::Number(3).as_map().is_none());
    assert_eq!(DataValue::Bool(false).as_bool(), Some(false));
}

#[test]
fn equality_looks_inside_arrays_and_containers() {
    let a = DataValue::Array(vec![DataValue::BoolTrue, DataValue::Str("x".into())]);
    let b = DataValue::Array(vec![DataValue::Bool(true), DataValue::Str("x".into())]);
    let c = DataValue::Array(vec![DataValue::Bool(true)]);
    assert_eq!(a, b);
    assert_ne!(a, c);
    let d = DataValue::Container(vec![(DataTypes::user_id, DataValue::BoolFalse)]);
    let e = DataValue::Container(vec![(DataTypes::user_id, DataValue::Bool(false))]);
    let f = DataValue::Container(vec![(DataTypes::sender_id, DataValue::Bool(false))]);
    assert_eq!(d, e);
    assert_ne!(d, f);
    assert_ne!(DataValue::Null, DataValue::Number(0));
    assert_ne!(DataValue::Bool(false), DataValue::BoolTrue);
}

#[test]
fn equal_values_hash_alike() {
    assert_eq!(hash_of(&DataValue::BoolTrue), hash_of(&DataValue::Bool(true)));
    assert_eq!(hash_of(&DataValue::BoolFalse), hash_of(&DataValue::Bool(false)));
    assert_ne!(hash_of(&DataValue::BoolTrue), hash_of(&DataValue::BoolFalse));
    let a = DataValue::Container(vec![(DataTypes::user_id, DataValue::Array(vec![DataValue::BoolTrue]))]);
    let b = DataValue::Container(vec![(DataTypes::user_id, DataValue::Array(vec![DataValue::Bool(true)]))]);
    assert_eq!(hash_of(&a), hash_of(&b));
}

#[test]
fn hash_feeds_tag_then_content() {
    let mut expected = DefaultHasher::new();
    1u8.hash(&mut expected);
    7i64.hash(&mut expected);
    assert_eq!(hash_of(&DataValue::Number(7)), expected.finish());

    let mut expected = DefaultHasher::new();
    4u8.hash(&mut expected);
    vec![(DataTypes::user_id, 5u8)].len().hash(&mut expected);
    DataTypes::user_id.hash(&mut expected);
    5u8.hash(&mut expected);
    assert_eq!(hash_of(&DataValue::Container(vec![(DataTypes::user_id, DataValue::Null)])), expected.finish());
}

#[test]
fn container_lists_map_in_key_order() {
    let mut map = BTreeMap::new();
    map.insert(DataTypes::has_admin, DataValue::BoolTrue);
    map.insert(DataTypes::error_type, DataValue::Str("e".into()));
    map.insert(DataTypes::user_id, DataValue::Number(9));
    let entries = DataValue::container_from_map(&map).as_container().unwrap();
    let keys: Vec<DataTypes> = entries.iter().map(|(k, _)| *k).collect();
    assert_eq!(keys, vec![DataTypes::error_type, DataTypes::user_id, DataTypes::has_admin]);
    assert_eq!(DataValue::container_from_map(&BTreeMap::new()), DataValue::Container(vec![]));
}

#[test]
fn as_map_keeps_the_last_value_of_a_repeated_key() {
    let value = DataValue::Container(vec![
        (DataTypes::user_id, DataValue::Number(1)),
        (DataTypes::username, DataValue::Str("a".into())),
        (DataTypes::user_id, DataValue::Number(2)),
    ]);
    let map = value.as_map().unwrap();
    assert_eq!(map.len(), 2);
    assert_eq!(map.get(&DataTypes::user_id), Some(&DataValue::Number(2)));
}

#[test]
fn clone_is_equal() {
    let v = DataValue::Container(vec![(DataTypes::messages, DataValue::Array(vec![DataValue::Str("m".into())]))]);
    assert_eq!(v.clone(), v);
    assert_eq!(DataKind::Array(Box::new(DataKind::Bool)).clone(), DataKind::Array(Box::new(DataKind::Bool)));
}
