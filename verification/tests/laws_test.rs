use actor::{Actor, ActorError, BlockStore, HelloWorldActor, KeyValueType, State, INIT_ACTOR_ID};
use fvm_ipld_encoding::to_vec;

fn construct() -> (BlockStore, State) {
    let mut store = BlockStore::new();
    let state = Actor::constructor(INIT_ACTOR_ID, &mut store).unwrap();
    (store, state)
}

#[test]
fn after_init_every_get_is_not_found() {
    let (store, st) = construct();
    assert_eq!(st.count, 0);
    let none: Option<u64> = None;
    for key in [0_u64, 1, 2, 77, u64::MAX] {
        assert_eq!(st.get_value(&store, key), Ok(None));
        assert_eq!(
            Actor::get_value(&st, &store, key).unwrap().unwrap(),
            to_vec(&none).unwrap()
        );
    }
}

#[test]
fn greeting_n_times_counts_to_n() {
    let (_store, mut st) = construct();
    for n in 1..=25_u64 {
        let bytes = Actor::say_hello(&mut st).unwrap().unwrap();
        assert_eq!(st.count, n);
        assert_eq!(bytes, to_vec(format!("Hello world #{}!", n).as_str()).unwrap());
    }
    let bytes = Actor::say_hello(&mut st).unwrap().unwrap();
    assert_eq!(bytes, to_vec("Hello world #26!").unwrap());
}

#[test]
fn third_greeting_carries_three() {
    let (_store, mut st) = construct();
    Actor::say_hello(&mut st).unwrap();
    Actor::say_hello(&mut st).unwrap();
    let third = Actor::say_hello(&mut st).unwrap().unwrap();
    assert_eq!(third, to_vec("Hello world #3!").unwrap());
}

#[test]
fn set_get_round_trip_on_unset_and_set_keys() {
    let (mut store, mut st) = construct();
    Actor::set_value(&mut st, &mut store, KeyValueType { key: 3, value: 30 }).unwrap();
    assert_eq!(st.get_value(&store, 3), Ok(Some(30)));
    Actor::set_value(&mut st, &mut store, KeyValueType { key: 3, value: 31 }).unwrap();
    assert_eq!(st.get_value(&store, 3), Ok(Some(31)));
}

#[test]
fn last_write_wins() {
    let (mut store, mut st) = construct();
    Actor::set_value(&mut st, &mut store, KeyValueType { key: 8, value: 1 }).unwrap();
    Actor::set_value(&mut st, &mut store, KeyValueType { key: 8, value: 2 }).unwrap();
    assert_eq!(st.get_value(&store, 8), Ok(Some(2)));
}

#[test]
fn set_leaves_other_keys_alone() {
    let (mut store, mut st) = construct();
    Actor::set_value(&mut st, &mut store, KeyValueType { key: 1, value: 10 }).unwrap();
    let set_before = st.get_value(&store, 1);
    let unset_before = st.get_value(&store, 2);
    Actor::set_value(&mut st, &mut store, KeyValueType { key: 3, value: 30 }).unwrap();
    assert_eq!(st.get_value(&store, 1), set_before);
    assert_eq!(st.get_value(&store, 2), unset_before);
    assert_eq!(st.get_value(&store, 1), Ok(Some(10)));
    assert_eq!(st.get_value(&store, 2), Ok(None));
}

#[test]
fn failed_set_leaves_state_and_reads_as_they_were() {
    let (mut store, mut st) = construct();
    Actor::set_value(&mut st, &mut store, KeyValueType { key: 1, value: 10 }).unwrap();
    Actor::say_hello(&mut st).unwrap();

    let mut other = BlockStore::new();
    let mut stray = st;
    let r = Actor::set_value(&mut stray, &mut other, KeyValueType { key: 2, value: 20 });
    assert_eq!(r, Err(ActorError::ModifyMap));
    assert_eq!(r.unwrap_err().exit_code(), 20);
    assert_eq!(stray.count, st.count);
    assert_eq!(stray.map, st.map);
    assert_eq!(st.get_value(&store, 1), Ok(Some(10)));
    assert_eq!(st.get_value(&store, 2), Ok(None));
    assert_eq!(stray.get_value(&other, 2), Err(ActorError::LoadMap));
}

#[test]
fn old_root_still_reads_the_old_map() {
    let (mut store, mut st) = construct();
    Actor::set_value(&mut st, &mut store, KeyValueType { key: 1, value: 10 }).unwrap();
    let earlier = st;
    Actor::set_value(&mut st, &mut store, KeyValueType { key: 1, value: 11 }).unwrap();
    Actor::set_value(&mut st, &mut store, KeyValueType { key: 2, value: 20 }).unwrap();
    assert_eq!(earlier.get_value(&store, 1), Ok(Some(10)));
    assert_eq!(earlier.get_value(&store, 2), Ok(None));
    assert_eq!(st.get_value(&store, 1), Ok(Some(11)));
    assert_eq!(st.get_value(&store, 2), Ok(Some(20)));
}

#[test]
fn unauthorized_constructor_is_refused() {
    for caller in [0_u64, 2, 100, u64::MAX] {
        let mut store = BlockStore::new();
        let r = Actor::constructor(caller, &mut store);
        assert_eq!(r.err(), Some(ActorError::Forbidden));
        let probe = State::new(&mut BlockStore::new()).unwrap();
        assert_eq!(probe.get_value(&store, 1), Err(ActorError::LoadMap));
    }
    assert_eq!(ActorError::Forbidden.exit_code(), 18);
}

#[test]
fn replay_gives_the_same_roots() {
    let mut roots = Vec::new();
    for _ in 0..2 {
        let (mut store, mut st) = construct();
        let mut seen = vec![st.map];
        Actor::say_hello(&mut st).unwrap();
        for (key, value) in [(1_u64, 2_u64), (5, 6), (1, 3), (1000, 0), (5, 6)] {
            Actor::set_value(&mut st, &mut store, KeyValueType { key, value }).unwrap();
            Actor::get_value(&st, &store, key).unwrap();
            Actor::say_hello(&mut st).unwrap();
            seen.push(st.map);
        }
        assert_eq!(st.count, 6);
        roots.push(seen);
    }
    assert_eq!(roots[0], roots[1]);
}

#[test]
fn same_map_built_in_another_order_has_the_same_root() {
    let (mut store_a, mut a) = construct();
    let (mut store_b, mut b) = construct();
    a.set_value(&mut store_a, 1, 10).unwrap();
    a.set_value(&mut store_a, 2, 20).unwrap();
    b.set_value(&mut store_b, 2, 20).unwrap();
    b.set_value(&mut store_b, 1, 10).unwrap();
    assert_eq!(a.map, b.map);
}

#[test]
fn repeated_write_keeps_the_root() {
    let (mut store, mut st) = construct();
    Actor::set_value(&mut st, &mut store, KeyValueType { key: 6, value: 60 }).unwrap();
    let once = st;
    Actor::set_value(&mut st, &mut store, KeyValueType { key: 6, value: 60 }).unwrap();
    assert_eq!(st.map, once.map);
    assert_eq!(st.count, once.count);
    assert_eq!(st.get_value(&store, 6), Ok(Some(60)));
}

#[test]
fn greetings_are_counted_with_reads_and_writes_between() {
    let (mut store, mut st) = construct();
    let mut greetings = 0_u64;
    for round in 0..12_u64 {
        Actor::set_value(&mut st, &mut store, KeyValueType { key: round, value: round + 1 })
            .unwrap();
        Actor::get_value(&st, &store, round).unwrap();
        if round % 3 != 1 {
            greetings += 1;
            let bytes = Actor::say_hello(&mut st).unwrap().unwrap();
            assert_eq!(
                bytes,
                to_vec(format!("Hello world #{}!", greetings).as_str()).unwrap()
            );
        }
        Actor::get_value(&st, &store, 1000).unwrap();
        assert_eq!(st.count, greetings);
    }
    assert_eq!(st.count, 8);
}

#[test]
fn same_write_gives_the_same_root_in_stores_that_hold_other_blocks() {
    let (mut store_a, mut a) = construct();
    let (mut store_b, mut b) = construct();
    let mut side = b;
    for key in 100..130_u64 {
        side.set_value(&mut store_b, key, key).unwrap();
    }
    a.set_value(&mut store_a, 1, 10).unwrap();
    b.set_value(&mut store_b, 1, 10).unwrap();
    assert_eq!(a.map, b.map);
    a.set_value(&mut store_a, 2, 20).unwrap();
    b.set_value(&mut store_b, 2, 20).unwrap();
    assert_eq!(a.map, b.map);
    assert_eq!(side.get_value(&store_b, 100), Ok(Some(100)));
    assert_eq!(b.get_value(&store_b, 100), Ok(None));
}

#[test]
fn failed_set_leaves_even_failing_reads_as_they_were() {
    let (mut store, mut st) = construct();
    st.set_value(&mut store, 1, 10).unwrap();
    let mut other = BlockStore::new();
    let before: Vec<_> = (0..5_u64).map(|k| st.get_value(&other, k)).collect();
    let mut stray = st;
    assert_eq!(stray.set_value(&mut other, 1, 11), Err(ActorError::ModifyMap));
    let after: Vec<_> = (0..5_u64).map(|k| stray.get_value(&other, k)).collect();
    assert_eq!(before, after);
    assert_eq!(after[1], Err(ActorError::LoadMap));
}
