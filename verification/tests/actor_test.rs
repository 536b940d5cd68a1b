use actor::error::{USR_FORBIDDEN, USR_ILLEGAL_STATE};
use actor::{
    Actor, ActorError, BlockStore, HelloWorldActor, KeyValueType, Method, State, INIT_ACTOR_ID,
    METHOD_CONSTRUCTOR,
};
use fvm_shared::error::ExitCode;
use fvm_ipld_encoding::{to_vec, RawBytes};

fn construct() -> (BlockStore, State) {
    let mut store = BlockStore::new();
    let state = Actor::constructor(INIT_ACTOR_ID, &mut store).unwrap();
    (store, state)
}

#[test]
fn test_constructor() {
    let mut store = BlockStore::new();
    let state = Actor::constructor(INIT_ACTOR_ID, &mut store).ok();
    assert!(state.is_some());

    let state: State = state.unwrap();
    assert_eq!(state.count, 0);
}

#[test]
fn test_say_hello() {
    let (_store, mut st) = construct();
    assert_eq!(st.count, 0);

    let mut resp = Actor::say_hello(&mut st).unwrap();

    assert_eq!(
        RawBytes::new(resp.unwrap()),
        RawBytes::new(to_vec("Hello world #1!").unwrap())
    );
    assert_eq!(st.count, 1);

    resp = Actor::say_hello(&mut st).unwrap();

    assert_eq!(
        RawBytes::new(resp.unwrap()),
        RawBytes::new(to_vec("Hello world #2!").unwrap())
    );
    assert_eq!(st.count, 2);
}

#[test]
fn test_hamt() {
    let (mut store, mut st) = construct();

    let mut resp = Actor::get_value(&st, &store, 5).unwrap();

    let none_ret: Option<u64> = None;
    assert_eq!(
        RawBytes::new(resp.unwrap()),
        RawBytes::serialize(none_ret).unwrap()
    );

    let params = KeyValueType { key: 1, value: 2 };

    Actor::set_value(&mut st, &mut store, params).unwrap();

    resp = Actor::get_value(&st, &store, 1).unwrap();

    assert_eq!(RawBytes::new(resp.unwrap()), RawBytes::serialize(&2).unwrap());
}

#[test]
fn method_numbers_are_those_of_the_dispatch_table() {
    assert_eq!(Method::Constructor.number(), 1);
    assert_eq!(Method::SayHello.number(), 2);
    assert_eq!(Method::GetValue.number(), 3);
    assert_eq!(Method::SetValue.number(), 4);
}

#[test]
fn method_from_number_inverts_number() {
    assert_eq!(Method::from_u64(1), Some(Method::Constructor));
    assert_eq!(Method::from_u64(2), Some(Method::SayHello));
    assert_eq!(Method::from_u64(3), Some(Method::GetValue));
    assert_eq!(Method::from_u64(4), Some(Method::SetValue));
    assert_eq!(Method::from_u64(0), None);
    assert_eq!(Method::from_u64(5), None);
    assert_eq!(Method::from_u64(u64::MAX), None);
}

#[test]
fn greeting_reply_is_cbor_text_not_the_plain_text() {
    let (_store, mut st) = construct();
    let bytes = Actor::say_hello(&mut st).unwrap().unwrap();
    let mut expected = vec![0x6f_u8];
    expected.extend_from_slice(b"Hello world #1!");
    assert_eq!(bytes, expected);
    assert_ne!(bytes, b"Hello world #1!".to_vec());
}

#[test]
fn greeting_with_a_long_count_uses_the_longer_cbor_header() {
    let (_store, mut st) = construct();
    st.count = 12_345_678_900;
    let bytes = Actor::say_hello(&mut st).unwrap().unwrap();
    let text = "Hello world #12345678901!";
    assert_eq!(text.len(), 25);
    let mut expected = vec![0x78_u8, 25];
    expected.extend_from_slice(text.as_bytes());
    assert_eq!(bytes, expected);
    assert_eq!(st.count, 12_345_678_901);
}

#[test]
fn get_reply_encodes_the_value() {
    let (mut store, mut st) = construct();
    assert_eq!(Actor::get_value(&st, &store, 9).unwrap().unwrap(), vec![0xf6]);
    Actor::set_value(&mut st, &mut store, KeyValueType { key: 9, value: 2 }).unwrap();
    assert_eq!(Actor::get_value(&st, &store, 9).unwrap().unwrap(), vec![0x02]);
    Actor::set_value(&mut st, &mut store, KeyValueType { key: 9, value: 500 }).unwrap();
    assert_eq!(
        Actor::get_value(&st, &store, 9).unwrap().unwrap(),
        vec![0x19, 0x01, 0xf4]
    );
    Actor::set_value(&mut st, &mut store, KeyValueType { key: 9, value: u64::MAX }).unwrap();
    assert_eq!(
        Actor::get_value(&st, &store, 9).unwrap().unwrap(),
        vec![0x1b, 0xff, 0xff, 0xff, 0xff, 0xff, 0xff, 0xff, 0xff]
    );
}

#[test]
fn get_does_not_change_the_state() {
    let (mut store, mut st) = construct();
    Actor::set_value(&mut st, &mut store, KeyValueType { key: 4, value: 40 }).unwrap();
    let before = st;
    Actor::get_value(&st, &store, 4).unwrap();
    Actor::get_value(&st, &store, 5).unwrap();
    assert_eq!(st.count, before.count);
    assert_eq!(st.map, before.map);
}

#[test]
fn set_does_not_change_the_count() {
    let (mut store, mut st) = construct();
    Actor::say_hello(&mut st).unwrap();
    Actor::say_hello(&mut st).unwrap();
    Actor::set_value(&mut st, &mut store, KeyValueType { key: 4, value: 40 }).unwrap();
    assert_eq!(st.count, 2);
}

#[test]
fn key_value_type_compares_by_fields() {
    let a = KeyValueType { key: 1, value: 2 };
    let b = a.clone();
    assert_eq!(a, b);
    assert_ne!(a, KeyValueType { key: 1, value: 3 });
    assert_ne!(a, KeyValueType { key: 2, value: 2 });
}

#[test]
fn get_reply_uses_the_shortest_head_at_each_boundary() {
    let (mut store, mut st) = construct();
    let cases: [(u64, Vec<u8>); 10] = [
        (0, vec![0x00]),
        (23, vec![0x17]),
        (24, vec![0x18, 0x18]),
        (255, vec![0x18, 0xff]),
        (256, vec![0x19, 0x01, 0x00]),
        (65_535, vec![0x19, 0xff, 0xff]),
        (65_536, vec![0x1a, 0x00, 0x01, 0x00, 0x00]),
        (4_294_967_295, vec![0x1a, 0xff, 0xff, 0xff, 0xff]),
        (
            4_294_967_296,
            vec![0x1b, 0x00, 0x00, 0x00, 0x01, 0x00, 0x00, 0x00, 0x00],
        ),
        (
            0x0102_0304_0506_0708,
            vec![0x1b, 0x01, 0x02, 0x03, 0x04, 0x05, 0x06, 0x07, 0x08],
        ),
    ];
    for (value, expected) in cases {
        Actor::set_value(&mut st, &mut store, KeyValueType { key: 1, value }).unwrap();
        assert_eq!(Actor::get_value(&st, &store, 1).unwrap().unwrap(), expected);
    }
}

#[test]
fn greeting_reply_head_changes_at_twenty_four_bytes() {
    let (_store, mut st) = construct();
    st.count = 999_999_998;
    let short = Actor::say_hello(&mut st).unwrap().unwrap();
    assert_eq!(short.len(), 1 + 23);
    assert_eq!(short[0], 0x60 + 23);
    assert_eq!(&short[1..], b"Hello world #999999999!");
    let long = Actor::say_hello(&mut st).unwrap().unwrap();
    assert_eq!(long.len(), 2 + 24);
    assert_eq!(&long[..2], &[0x78, 24]);
    assert_eq!(&long[2..], b"Hello world #1000000000!");
}

#[test]
fn constants_are_those_of_the_shared_crate() {
    assert_eq!(METHOD_CONSTRUCTOR, fvm_shared::METHOD_CONSTRUCTOR);
    assert_eq!(Method::Constructor.number(), fvm_shared::METHOD_CONSTRUCTOR);
    assert_eq!(USR_FORBIDDEN, ExitCode::USR_FORBIDDEN.value());
    assert_eq!(USR_ILLEGAL_STATE, ExitCode::USR_ILLEGAL_STATE.value());
    assert_eq!(
        ExitCode::new(ActorError::Forbidden.exit_code()),
        ExitCode::USR_FORBIDDEN
    );
    assert_eq!(
        ExitCode::new(ActorError::ModifyMap.exit_code()),
        ExitCode::USR_ILLEGAL_STATE
    );
}

#[test]
fn constructor_gives_the_same_state_whatever_the_store_holds() {
    let mut fresh = BlockStore::new();
    let mut used = BlockStore::new();
    let mut other = Actor::constructor(INIT_ACTOR_ID, &mut used).unwrap();
    for key in 0..40_u64 {
        Actor::set_value(&mut other, &mut used, KeyValueType { key, value: key }).unwrap();
    }
    let a = Actor::constructor(INIT_ACTOR_ID, &mut fresh).unwrap();
    let b = Actor::constructor(INIT_ACTOR_ID, &mut used).unwrap();
    assert_eq!(a.count, 0);
    assert_eq!(b.count, 0);
    assert_eq!(a.map, b.map);
    assert_eq!(other.get_value(&used, 7), Ok(Some(7)));
}
