use protobuf_reflect::map::make_map_accessor;
use protobuf_reflect::repeated::make_vec_accessor;
use protobuf_reflect::singular::{
    make_option_accessor, make_simple_field_accessor, make_singular_bytes_has_get_set_accessor,
    make_singular_copy_has_get_set_accessor, make_singular_message_has_get_mut_set_accessor,
    make_singular_ptr_field_accessor, make_singular_string_has_get_set_accessor,
};
use protobuf_reflect::singular::SingularFieldAccessor;
use protobuf_reflect::value::{ProtobufValue, ReflectValue};
use std::collections::HashMap;

#[derive(Default, Clone, PartialEq, Debug)]
struct Child {
    x: i32,
}

#[derive(Default)]
struct Sample {
    n: i32,
    has_n: bool,
    count: u64,
    s: String,
    flag: bool,
    name: String,
    has_name: bool,
    data: Vec<u8>,
    has_data: bool,
    opt: Option<u32>,
    child: Option<Box<Child>>,
    sub: Child,
    has_sub: bool,
    items: Vec<i32>,
    tags: HashMap<String, i64>,
}

#[test]
fn explicit_presence_int32_scenario() {
    let acc = make_singular_copy_has_get_set_accessor(
        |m: &Sample| m.has_n,
        |m: &Sample| m.n,
        |m: &mut Sample, v: i32| {
            m.n = v;
            m.has_n = true;
        },
    );
    let mut msg = Sample::default();
    assert!(!acc.has_field(&msg));
    acc.set_field(&mut msg, ReflectValue::I32(5));
    assert!(acc.has_field(&msg));
    assert_eq!(acc.get_field(&msg), ReflectValue::I32(5));
    acc.set_field(&mut msg, ReflectValue::I32(0));
    assert!(acc.has_field(&msg));
    assert_eq!(acc.get_field(&msg), ReflectValue::I32(0));
}

#[test]
fn no_presence_string_scenario() {
    let acc = make_simple_field_accessor(|m: &Sample| &m.s, |m: &mut Sample| &mut m.s);
    let mut msg = Sample::default();
    assert_eq!(acc.get_field(&msg), ReflectValue::Str(String::new()));
    assert!(!acc.has_field(&msg));
    acc.set_field(&mut msg, ReflectValue::Str("x".to_string()));
    assert!(acc.has_field(&msg));
    assert_eq!(msg.s, "x");
    acc.set_field(&mut msg, ReflectValue::Str(String::new()));
    assert!(!acc.has_field(&msg));
}

#[test]
fn simple_accessor_has_is_value_not_default() {
    let acc = make_simple_field_accessor(|m: &Sample| &m.count, |m: &mut Sample| &mut m.count);
    let mut msg = Sample::default();
    for v in [0u64, 1, 42, u64::MAX, 0] {
        acc.set_field(&mut msg, ReflectValue::U64(v));
        assert_eq!(acc.get_field(&msg), ReflectValue::U64(v));
        assert_eq!(acc.has_field(&msg), v != 0);
    }
    let flag = make_simple_field_accessor(|m: &Sample| &m.flag, |m: &mut Sample| &mut m.flag);
    assert!(!flag.has_field(&msg));
    flag.set_field(&mut msg, ReflectValue::Bool(true));
    assert!(flag.has_field(&msg));
    flag.set_field(&mut msg, ReflectValue::Bool(false));
    assert!(!flag.has_field(&msg));
}

#[test]
fn string_has_get_set() {
    let acc = make_singular_string_has_get_set_accessor(
        |m: &Sample| m.has_name,
        |m: &Sample| &m.name,
        |m: &mut Sample, v: String| {
            m.name = v;
            m.has_name = true;
        },
    );
    let mut msg = Sample::default();
    assert!(!acc.has_field(&msg));
    acc.set_field(&mut msg, ReflectValue::Str(String::new()));
    assert!(acc.has_field(&msg));
    assert_eq!(acc.get_field(&msg), ReflectValue::Str(String::new()));
    acc.set_field(&mut msg, ReflectValue::Str("abc".to_string()));
    assert_eq!(acc.get_ref(&msg), "abc");
    assert_eq!(acc.get_field(&msg), ReflectValue::Str("abc".to_string()));
}

#[test]
fn bytes_has_get_set() {
    let acc = make_singular_bytes_has_get_set_accessor(
        |m: &Sample| m.has_data,
        |m: &Sample| &m.data,
        |m: &mut Sample, v: Vec<u8>| {
            m.data = v;
            m.has_data = true;
        },
    );
    let mut msg = Sample::default();
    assert!(!acc.has_field(&msg));
    acc.set_field(&mut msg, ReflectValue::Bytes(vec![1, 2, 255]));
    assert!(acc.has_field(&msg));
    assert_eq!(acc.get_field(&msg), ReflectValue::Bytes(vec![1, 2, 255]));
    assert_eq!(acc.get_ref(&msg), &vec![1u8, 2, 255]);
}

#[test]
fn option_accessor_presence_is_some() {
    let acc = make_option_accessor(|m: &Sample| &m.opt, |m: &mut Sample| &mut m.opt);
    let mut msg = Sample::default();
    assert!(!acc.has_field(&msg));
    assert_eq!(acc.get_field(&msg), ReflectValue::U32(0));
    acc.set_field(&mut msg, ReflectValue::U32(0));
    assert!(acc.has_field(&msg));
    assert_eq!(msg.opt, Some(0));
    acc.set_field(&mut msg, ReflectValue::U32(9));
    assert_eq!(acc.get_field(&msg), ReflectValue::U32(9));
}

#[test]
fn ptr_field_get_mut_creates_default() {
    let acc = make_singular_ptr_field_accessor(|m: &Sample| &m.child, |m: &mut Sample| &mut m.child);
    let mut msg = Sample::default();
    assert!(!acc.has_field(&msg));
    assert_eq!(acc.get_field(&msg), None);
    {
        let c = acc.get_mut(&mut msg);
        assert_eq!(*c, Child { x: 0 });
        c.x = 7;
    }
    assert!(acc.has_field(&msg));
    assert_eq!(acc.get_field(&msg), Some(&Child { x: 7 }));
    assert_eq!(acc.get_mut(&mut msg).x, 7);
    acc.set_field(&mut msg, Child { x: -3 });
    assert_eq!(acc.get_field(&msg), Some(&Child { x: -3 }));
}

#[test]
fn message_has_get_mut_set() {
    let acc = make_singular_message_has_get_mut_set_accessor(
        |m: &Sample| m.has_sub,
        |m: &Sample| &m.sub,
        |m: &mut Sample| {
            m.has_sub = true;
            &mut m.sub
        },
        |m: &mut Sample, v: Child| {
            m.sub = v;
            m.has_sub = true;
        },
    );
    let mut msg = Sample::default();
    assert!(!acc.has_field(&msg));
    assert_eq!(acc.get_field(&msg), None);
    acc.get_mut(&mut msg).x = 11;
    assert!(acc.has_field(&msg));
    assert_eq!(acc.get_field(&msg), Some(&Child { x: 11 }));
    acc.set_field(&mut msg, Child { x: 2 });
    assert_eq!(acc.get_field(&msg), Some(&Child { x: 2 }));
}

#[test]
fn repeated_push_order_and_clear() {
    let acc = make_vec_accessor(|m: &Sample| &m.items, |m: &mut Sample| &mut m.items);
    let mut msg = Sample::default();
    assert_eq!(acc.len(&msg), 0);
    acc.push(&mut msg, 4);
    acc.push(&mut msg, 4);
    acc.push(&mut msg, -1);
    assert_eq!(acc.get_field(&msg), &vec![4, 4, -1]);
    acc.set_at(&mut msg, 1, 9);
    assert_eq!(acc.get_field(&msg), &vec![4, 9, -1]);
    acc.get_mut(&mut msg).push(5);
    assert_eq!(acc.len(&msg), 4);
    acc.clear(&mut msg);
    assert_eq!(acc.len(&msg), 0);
    acc.push(&mut msg, 1);
    acc.push(&mut msg, 2);
    assert_eq!(acc.get_field(&msg), &vec![1, 2]);
}

#[test]
fn map_insert_lookup_overwrite() {
    let acc = make_map_accessor(|m: &Sample| &m.tags, |m: &mut Sample| &mut m.tags);
    let mut msg = Sample::default();
    let a = "a".to_string();
    let b = "b".to_string();
    assert_eq!(acc.lookup(&msg, &a), None);
    acc.insert(&mut msg, a.clone(), 1);
    assert_eq!(acc.lookup(&msg, &a), Some(&1));
    assert!(acc.contains(&msg, &a));
    acc.insert(&mut msg, a.clone(), 2);
    assert_eq!(acc.lookup(&msg, &a), Some(&2));
    assert_eq!(acc.len(&msg), 1);
    acc.insert(&mut msg, b.clone(), 3);
    let mut keys: Vec<String> = acc.keys(&msg).into_iter().cloned().collect();
    keys.sort();
    assert_eq!(keys, vec!["a".to_string(), "b".to_string()]);
    assert_eq!(acc.get_field(&msg).len(), 2);
    acc.remove(&mut msg, &a);
    assert!(!acc.contains(&msg, &a));
    assert_eq!(acc.len(&msg), 1);
}

#[test]
fn value_conversions() {
    assert_eq!(7i64.to_value(), ReflectValue::I64(7));
    assert_eq!(<u32 as ProtobufValue>::from_value(ReflectValue::U32(3)), 3);
    assert_eq!(<String as ProtobufValue>::default_value(), "");
    assert!("".to_string().is_default());
    assert!(!"z".to_string().is_default());
    assert!(Vec::<u8>::new().is_default());
    assert!(!vec![0u8].is_default());
    assert!(ProtobufValue::is_default(&false));
    assert!(!ProtobufValue::is_default(&-1i32));
    assert_eq!(vec![5u8].to_value(), ReflectValue::Bytes(vec![5]));
}
