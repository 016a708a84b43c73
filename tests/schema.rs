use std::collections::{BTreeMap, BTreeSet, HashMap, HashSet};

use ftl::schema::{IntegerFormat, SchemaKind};
use ftl::{DynError, Error, Schema, SchemaFragment};

fn example_of<T: Schema>() -> String {
    T::schema().example.unwrap()
}

#[test]
fn parse_example_vec_u32() {
    let _: Vec<u32> = serde_json::from_str(&example_of::<Vec<u32>>()).unwrap();
}

#[test]
fn parse_example_hashset_u32() {
    let _: HashSet<u32> = serde_json::from_str(&example_of::<HashSet<u32>>()).unwrap();
}

#[test]
fn parse_example_btreeset_u32() {
    let _: BTreeSet<u32> = serde_json::from_str(&example_of::<BTreeSet<u32>>()).unwrap();
}

#[test]
fn parse_example_hashmap_u32() {
    let _: HashMap<String, u32> =
        serde_json::from_str(&example_of::<HashMap<String, u32>>()).unwrap();
}

#[test]
fn parse_example_btreemap_u32() {
    let _: BTreeMap<String, u32> =
        serde_json::from_str(&example_of::<BTreeMap<String, u32>>()).unwrap();
}

#[test]
fn parse_example_bool() {
    let _: bool = serde_json::from_str(&example_of::<bool>()).unwrap();
}

#[test]
fn parse_example_u8() {
    let _: u8 = serde_json::from_str(&example_of::<u8>()).unwrap();
}

#[test]
fn parse_example_u16() {
    let _: u16 = serde_json::from_str(&example_of::<u16>()).unwrap();
}

#[test]
fn parse_example_u32() {
    let _: u32 = serde_json::from_str(&example_of::<u32>()).unwrap();
}

#[test]
fn parse_example_i8() {
    let _: i8 = serde_json::from_str(&example_of::<i8>()).unwrap();
}

#[test]
fn parse_example_i16() {
    let _: i16 = serde_json::from_str(&example_of::<i16>()).unwrap();
}

#[test]
fn parse_example_i32() {
    let _: i32 = serde_json::from_str(&example_of::<i32>()).unwrap();
}

#[test]
fn parse_example_i64() {
    let _: i64 = serde_json::from_str(&example_of::<i64>()).unwrap();
}

#[test]
fn parse_example_f32() {
    let example = SchemaFragment::number("f32").example.unwrap();
    let _: f32 = serde_json::from_str(&example).unwrap();
}

#[test]
fn parse_example_f64() {
    let example = SchemaFragment::number("f64").example.unwrap();
    let _: f64 = serde_json::from_str(&example).unwrap();
}

#[test]
fn parse_example_string() {
    let _: String = serde_json::from_str(&example_of::<String>()).unwrap();
}

#[test]
fn parse_example_dyn_error() {
    let example = example_of::<DynError>();
    let value: serde_json::Value = serde_json::from_str(&example).unwrap();
    let status = value.get("status").and_then(|s| s.as_u64()).unwrap() as u16;
    let error = value.get("error").and_then(|e| e.as_str()).map(String::from);
    let e = DynError::from_wire(status, error).unwrap();
    assert_eq!(e.status, 418);
    assert_eq!(e.error.as_deref(), Some("Honestly, it's a teapot"));
}

#[test]
fn integer_bounds_follow_the_type() {
    match <u8 as Schema>::schema().kind {
        SchemaKind::Integer { format, minimum, maximum } => {
            assert_eq!(format, IntegerFormat::Int32);
            assert_eq!((minimum, maximum), (0, 255));
        }
        _ => panic!("u8 is not described as an integer"),
    }
    match <i64 as Schema>::schema().kind {
        SchemaKind::Integer { format, minimum, maximum } => {
            assert_eq!(format, IntegerFormat::Int64);
            assert_eq!((minimum, maximum), (i64::MIN, i64::MAX));
        }
        _ => panic!("i64 is not described as an integer"),
    }
}

#[test]
fn sets_have_unique_items_and_lists_do_not() {
    assert!(matches!(<Vec<u8> as Schema>::schema().kind, SchemaKind::Array { unique_items: false, .. }));
    assert!(matches!(<HashSet<u8> as Schema>::schema().kind, SchemaKind::Array { unique_items: true, .. }));
    assert!(matches!(<BTreeSet<u8> as Schema>::schema().kind, SchemaKind::Array { unique_items: true, .. }));
}

#[test]
fn option_is_a_nullable_inner_schema() {
    let inner = <String as Schema>::schema();
    let outer = <Option<String> as Schema>::schema();
    assert!(!inner.nullable);
    assert!(outer.nullable);
    assert_eq!(outer.title, inner.title);
    assert_eq!(outer.example, inner.example);
}

#[test]
fn error_schemas_use_one_form() {
    let s = <String as Error>::error_schema();
    assert!(s.default_schema.is_none());
    assert_eq!(s.schemas.len(), 1);
    assert_eq!(s.schemas[0].0, 500);
    assert_eq!(Error::status(&String::from("boom")), 500);

    let d = <DynError as Error>::error_schema();
    assert_eq!(d.default_schema.unwrap().title, "DynError");
    assert!(d.schemas.is_empty());
}

#[test]
fn parse_example_json_map() {
    let _: serde_json::Map<String, serde_json::Value> =
        serde_json::from_str(&example_of::<serde_json::Map<String, serde_json::Value>>()).unwrap();
    assert!(<serde_json::Value as Schema>::schema().nullable);
}
