//! What holds of the actor across calls, proved from the contracts of the
//! handlers.
//!
//! A call is described by the record and the store before it, the record and
//! the store after it, and its reply; the hypotheses of a law are the
//! postconditions of the calls it speaks of.

use crate::actor::{Actor, INIT_ACTOR_ID};
use crate::codec::{cbor_number, cbor_string};
use crate::error::{ActorError, USR_FORBIDDEN};
use crate::state::State;
use crate::store::{empty_map, map_inserted, BlockStore};
use crate::text::greeting;
use cid::Cid;
use vstd::prelude::*;

verus! {

/// One call of the actor after its initialization.
pub enum Call {
    SayHello,
    GetValue(u64),
    SetValue(u64, u64),
}

/// All that a call can depend on and change: the state record and the blocks
/// of the store.
pub struct Snapshot {
    pub state: State,
    pub blocks: Map<Cid, Seq<u8>>,
}

/// The snapshot that a call leaves.
pub open spec fn step(s: Snapshot, call: Call) -> Snapshot {
    match call {
        Call::SayHello => Snapshot { state: Actor::say_hello_state(s.state), blocks: s.blocks },
        Call::GetValue(_) => s,
        Call::SetValue(key, value) => {
            let written = map_inserted(s.blocks, s.state.map, key, value);
            Snapshot {
                state: State {
                    count: s.state.count,
                    map: match written.root {
                        Some(root) => root,
                        None => s.state.map,
                    },
                },
                blocks: written.blocks,
            }
        },
    }
}

/// The snapshot that a sequence of calls leaves, the first call first.
pub open spec fn replay(s: Snapshot, calls: Seq<Call>) -> Snapshot
    decreases calls.len(),
{
    if calls.len() == 0 {
        s
    } else {
        step(replay(s, calls.drop_last()), calls.last())
    }
}

/// How many of the calls are greetings.
pub open spec fn greetings(calls: Seq<Call>) -> nat
    decreases calls.len(),
{
    if calls.len() == 0 {
        0
    } else if calls.last() is SayHello {
        greetings(calls.drop_last()) + 1
    } else {
        greetings(calls.drop_last())
    }
}

/// The state after `n` greetings in a row.
pub open spec fn greeted(st: State, n: nat) -> State
    decreases n,
{
    if n == 0 {
        st
    } else {
        Actor::say_hello_state(greeted(st, (n - 1) as nat))
    }
}

/// Initialization by the init actor succeeds; after it the count is zero and
/// every key reads as not found.
pub proof fn law_initial_state(pre: BlockStore, post: BlockStore, r: Result<State, ActorError>, key: u64)
    requires
        pre.wf(),
        Actor::constructor_post(INIT_ACTOR_ID, pre, post, r),
    ensures
        r is Ok,
        r->Ok_0.count == 0,
        r->Ok_0.map == empty_map().id,
        r->Ok_0.reads(post@, key) == Ok::<Option<u64>, ActorError>(None),
        Actor::get_value_reply(r->Ok_0, post@, key) == Ok::<Option<Seq<u8>>, ActorError>(
            Some(seq![0xf6u8]),
        ),
{
    assert(cbor_number(None) == seq![0xf6u8]);
}

/// Two initializations give the same state, whatever the two stores held.
pub proof fn law_initial_state_is_fixed(
    pre_a: BlockStore,
    post_a: BlockStore,
    r_a: Result<State, ActorError>,
    pre_b: BlockStore,
    post_b: BlockStore,
    r_b: Result<State, ActorError>,
)
    requires
        pre_a.wf(),
        pre_b.wf(),
        Actor::constructor_post(INIT_ACTOR_ID, pre_a, post_a, r_a),
        Actor::constructor_post(INIT_ACTOR_ID, pre_b, post_b, r_b),
    ensures
        r_a is Ok,
        r_b is Ok,
        r_a->Ok_0 == r_b->Ok_0,
{
}

/// A caller other than the init actor is refused with the authorization
/// error, and nothing is created or written.
pub proof fn law_unauthorized_constructor(
    caller: u64,
    pre: BlockStore,
    post: BlockStore,
    r: Result<State, ActorError>,
)
    requires
        caller != INIT_ACTOR_ID,
        Actor::constructor_post(caller, pre, post, r),
    ensures
        r is Err,
        r->Err_0 == ActorError::Forbidden,
        r->Err_0.code() == USR_FORBIDDEN,
        !r->Err_0.is_illegal_state(),
        post == pre,
{
}

/// After `n` greetings in a row the count has grown by `n`, the map is the
/// same, and the reply of the last one is the encoded greeting that carries
/// the new count.
pub proof fn law_greetings_count(st: State, n: nat)
    requires
        st.count + n <= u64::MAX,
    ensures
        greeted(st, n).count == st.count + n,
        greeted(st, n).map == st.map,
        n >= 1 ==> Actor::say_hello_reply(greeted(st, (n - 1) as nat)) == Ok::<
            Option<Seq<u8>>,
            ActorError,
        >(Some(cbor_string(greeting((st.count + n) as u64)))),
    decreases n,
{
    if n >= 1 {
        law_greetings_count(st, (n - 1) as nat);
    }
}

/// Along any sequence of calls the count grows by the number of greetings
/// among them, whatever reads and writes stand between; the greeting that
/// follows carries that number plus one.
pub proof fn law_count_is_number_of_greetings(s: Snapshot, calls: Seq<Call>)
    requires
        s.state.count + greetings(calls) < u64::MAX,
    ensures
        replay(s, calls).state.count == s.state.count + greetings(calls),
        Actor::say_hello_reply(replay(s, calls).state) == Ok::<Option<Seq<u8>>, ActorError>(
            Some(cbor_string(greeting((s.state.count + greetings(calls) + 1) as u64))),
        ),
        Actor::say_hello_state(replay(s, calls).state).count == s.state.count + greetings(calls)
            + 1,
    decreases calls.len(),
{
    if calls.len() > 0 {
        law_count_is_number_of_greetings(s, calls.drop_last());
    }
}

/// A key that was set reads as the value it was set to, whether or not it was
/// bound before.
pub proof fn law_set_then_get(
    st: State,
    pre: BlockStore,
    key: u64,
    value: u64,
    after: State,
    post: BlockStore,
    r: Result<(), ActorError>,
)
    requires
        pre.wf(),
        st.set_value_post(pre, key, value, after, post, r),
        r is Ok,
    ensures
        after.reads(post@, key) == Ok::<Option<u64>, ActorError>(Some(value)),
        Actor::get_value_reply(after, post@, key) == Ok::<Option<Seq<u8>>, ActorError>(
            Some(cbor_number(Some(value))),
        ),
{
}

/// Of two writes to one key the later one is read.
pub proof fn law_last_write_wins(
    st: State,
    pre: BlockStore,
    key: u64,
    first: u64,
    second: u64,
    mid: State,
    mid_store: BlockStore,
    after: State,
    post: BlockStore,
    r1: Result<(), ActorError>,
    r2: Result<(), ActorError>,
)
    requires
        pre.wf(),
        st.set_value_post(pre, key, first, mid, mid_store, r1),
        mid.set_value_post(mid_store, key, second, after, post, r2),
        r1 is Ok,
        r2 is Ok,
    ensures
        after.reads(post@, key) == Ok::<Option<u64>, ActorError>(Some(second)),
{
}

/// Writing once more what was just written succeeds and changes nothing: the
/// record, its root among it, and the blocks of the store are as they were.
pub proof fn law_repeated_write_is_void(
    st: State,
    pre: BlockStore,
    key: u64,
    value: u64,
    mid: State,
    mid_store: BlockStore,
    after: State,
    post: BlockStore,
    r1: Result<(), ActorError>,
    r2: Result<(), ActorError>,
)
    requires
        pre.wf(),
        st.set_value_post(pre, key, value, mid, mid_store, r1),
        mid.set_value_post(mid_store, key, value, after, post, r2),
        r1 is Ok,
    ensures
        r2 is Ok,
        after == mid,
        after.map == mid.map,
        post@ == mid_store@,
{
}

/// Setting one key changes no other: a key that could be read before a write
/// to another key reads the same after it, whether the write succeeded or
/// failed.
pub proof fn law_other_keys_keep(
    st: State,
    pre: BlockStore,
    key: u64,
    value: u64,
    after: State,
    post: BlockStore,
    r: Result<(), ActorError>,
    other: u64,
)
    requires
        pre.wf(),
        st.set_value_post(pre, key, value, after, post, r),
        other != key,
        st.reads(pre@, other) is Ok,
    ensures
        after.reads(post@, other) == st.reads(pre@, other),
{
}

/// A write that fails changes nothing: the record is as it was, the store
/// holds the blocks it held, and every key reads as it did, the key of the
/// write and the keys that could not be read among them.
pub proof fn law_failed_set_is_void(
    st: State,
    pre: BlockStore,
    key: u64,
    value: u64,
    after: State,
    post: BlockStore,
    r: Result<(), ActorError>,
    any: u64,
)
    requires
        pre.wf(),
        st.set_value_post(pre, key, value, after, post, r),
        r is Err,
    ensures
        after == st,
        post@ == pre@,
        r->Err_0 == ActorError::ModifyMap,
        r->Err_0.is_illegal_state(),
        after.reads(post@, any) == st.reads(pre@, any),
        Actor::get_value_reply(after, post@, any) == Actor::get_value_reply(st, pre@, any),
{
}

/// A write only adds blocks: every block that the store held is still held
/// with the same bytes, and a record that was copied before the write still
/// reads what it could read before.
pub proof fn law_write_keeps_blocks(
    st: State,
    pre: BlockStore,
    key: u64,
    value: u64,
    after: State,
    post: BlockStore,
    r: Result<(), ActorError>,
    id: Cid,
    any: u64,
)
    requires
        pre.wf(),
        st.set_value_post(pre, key, value, after, post, r),
    ensures
        pre@.dom().contains(id) ==> post@.dom().contains(id) && post@[id] == pre@[id],
        st.reads(pre@, any) is Ok ==> st.reads(post@, any) == st.reads(pre@, any),
{
    assert(pre@.submap_of(post@));
}

/// A write, seen as a step: the record and the blocks it leaves are those
/// that `step` gives.
pub proof fn law_set_is_step(
    st: State,
    pre: BlockStore,
    key: u64,
    value: u64,
    after: State,
    post: BlockStore,
    r: Result<(), ActorError>,
)
    requires
        pre.wf(),
        st.set_value_post(pre, key, value, after, post, r),
    ensures
        step(Snapshot { state: st, blocks: pre@ }, Call::SetValue(key, value)) == (Snapshot {
            state: after,
            blocks: post@,
        }),
{
}

/// The same write made on two replicas that hold the same record and the same
/// blocks leaves them with the same record, the same root among it, the same
/// blocks and the same reply.
pub proof fn law_set_is_determined(
    key: u64,
    value: u64,
    st_a: State,
    pre_a: BlockStore,
    after_a: State,
    post_a: BlockStore,
    r_a: Result<(), ActorError>,
    st_b: State,
    pre_b: BlockStore,
    after_b: State,
    post_b: BlockStore,
    r_b: Result<(), ActorError>,
)
    requires
        pre_a.wf(),
        pre_b.wf(),
        st_a == st_b,
        pre_a@ == pre_b@,
        st_a.set_value_post(pre_a, key, value, after_a, post_a, r_a),
        st_b.set_value_post(pre_b, key, value, after_b, post_b, r_b),
    ensures
        after_a == after_b,
        after_a.map == after_b.map,
        post_a@ == post_b@,
        r_a == r_b,
{
    law_set_is_step(st_a, pre_a, key, value, after_a, post_a, r_a);
    law_set_is_step(st_b, pre_b, key, value, after_b, post_b, r_b);
    let written = map_inserted(pre_a@, st_a.map, key, value);
    assert(r_a is Ok <==> written.root is Some);
    assert(r_b is Ok <==> written.root is Some);
    match (r_a, r_b) {
        (Ok(u), Ok(v)) => assert(u == v),
        (Err(e), Err(f)) => assert(e == f),
        _ => {},
    }
}

/// The root that a write leaves depends on the root before it, the key and
/// the value alone: two replicas that hold the same record over stores with
/// whatever other blocks, and on which the same write succeeds, hold the same
/// record afterwards.
pub proof fn law_set_root_is_fixed_by_root(
    key: u64,
    value: u64,
    st_a: State,
    pre_a: BlockStore,
    after_a: State,
    post_a: BlockStore,
    r_a: Result<(), ActorError>,
    st_b: State,
    pre_b: BlockStore,
    after_b: State,
    post_b: BlockStore,
    r_b: Result<(), ActorError>,
)
    requires
        pre_a.wf(),
        pre_b.wf(),
        st_a == st_b,
        st_a.set_value_post(pre_a, key, value, after_a, post_a, r_a),
        st_b.set_value_post(pre_b, key, value, after_b, post_b, r_b),
        r_a is Ok,
        r_b is Ok,
    ensures
        after_a == after_b,
        after_a.map == after_b.map,
{
}

/// A greeting depends on the state alone: its reply and the state it leaves
/// are the same on any two replicas that hold the same record.
pub proof fn law_greeting_is_fixed_by_state(a: State, b: State)
    requires
        a == b,
    ensures
        Actor::say_hello_reply(a) == Actor::say_hello_reply(b),
        Actor::say_hello_state(a) == Actor::say_hello_state(b),
        Actor::say_hello_reply(a) is Ok,
{
}

/// Replaying one sequence of calls from two snapshots that hold the same
/// record and the same blocks ends in the same root, the same count and the
/// same blocks.
pub proof fn law_replay_is_determined(a: Snapshot, b: Snapshot, calls: Seq<Call>)
    requires
        a.state == b.state,
        a.blocks == b.blocks,
    ensures
        replay(a, calls).state.map == replay(b, calls).state.map,
        replay(a, calls).state.count == replay(b, calls).state.count,
        replay(a, calls).blocks == replay(b, calls).blocks,
    decreases calls.len(),
{
    if calls.len() > 0 {
        law_replay_is_determined(a, b, calls.drop_last());
    }
}

/// What one call leaves when it runs on a replica. For a write, `ok` says
/// whether it succeeded; a greeting succeeds, and a read changes nothing
/// whatever it replies.
pub open spec fn ran(
    st: State,
    pre: BlockStore,
    call: Call,
    ok: bool,
    after: State,
    post: BlockStore,
) -> bool {
    match call {
        Call::SayHello => after == Actor::say_hello_state(st) && post == pre,
        Call::GetValue(_) => after == st && post == pre,
        Call::SetValue(key, value) => st.set_value_post(
            pre,
            key,
            value,
            after,
            post,
            if ok {
                Ok(())
            } else {
                Err(ActorError::ModifyMap)
            },
        ),
    }
}

/// The course of a sequence of calls on one replica: the record and the store
/// before the first call and after each call, and whether each call succeeded.
pub struct Run {
    pub states: Seq<State>,
    pub stores: Seq<BlockStore>,
    pub oks: Seq<bool>,
}

/// The `i`-th call of the sequence led from the `i`-th record and store of the
/// run to the next.
pub open spec fn ran_at(run: Run, calls: Seq<Call>, i: int) -> bool {
    ran(run.states[i], run.stores[i], calls[i], run.oks[i], run.states[i + 1], run.stores[i + 1])
}

/// The run is a course of these calls, each made on what the one before it
/// left.
pub open spec fn is_run(run: Run, calls: Seq<Call>) -> bool {
    &&& run.states.len() == calls.len() + 1
    &&& run.stores.len() == calls.len() + 1
    &&& run.oks.len() == calls.len()
    &&& run.stores[0].wf()
    &&& forall|i: int| 0 <= i < calls.len() ==> #[trigger] ran_at(run, calls, i)
}

/// Every call of the run succeeded.
pub open spec fn all_succeed(run: Run) -> bool {
    forall|i: int| 0 <= i < run.oks.len() ==> #[trigger] run.oks[i]
}

/// Two replicas that start from the same record, over stores that may hold
/// whatever other blocks, and on which the same sequence of calls succeeds,
/// hold the same record, the same root among it, after each call.
pub proof fn law_runs_agree(a: Run, b: Run, calls: Seq<Call>, n: int)
    requires
        is_run(a, calls),
        is_run(b, calls),
        a.states[0] == b.states[0],
        all_succeed(a),
        all_succeed(b),
        0 <= n <= calls.len(),
    ensures
        a.states[n] == b.states[n],
        a.states[n].map == b.states[n].map,
        a.stores[n].wf(),
        b.stores[n].wf(),
    decreases n,
{
    if n > 0 {
        law_runs_agree(a, b, calls, n - 1);
        assert(ran_at(a, calls, n - 1));
        assert(ran_at(b, calls, n - 1));
        assert(a.oks[n - 1]);
        assert(b.oks[n - 1]);
    }
}

/// Along a run the count is the count at its start plus the number of
/// greetings so far, whatever reads and writes stand between them and whether
/// or not the writes succeeded.
pub proof fn law_run_counts_greetings(run: Run, calls: Seq<Call>, n: int)
    requires
        is_run(run, calls),
        0 <= n <= calls.len(),
        run.states[0].count + n <= u64::MAX,
    ensures
        run.states[n].count == run.states[0].count + greetings(calls.take(n)),
        greetings(calls.take(n)) <= n,
        run.stores[n].wf(),
    decreases n,
{
    if n > 0 {
        law_run_counts_greetings(run, calls, n - 1);
        assert(ran_at(run, calls, n - 1));
        assert(calls.take(n).drop_last() =~= calls.take(n - 1));
        assert(calls.take(n).last() == calls[n - 1]);
    } else {
        assert(calls.take(0).len() == 0);
    }
}

} // verus!
