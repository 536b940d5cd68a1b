//! The actor: its method numbers and the handler of each method.
//!
//! A handler is one transaction. It works on the state record it is given and
//! either leaves the record that results, or fails and leaves the record as it
//! found it.

use crate::codec::{cbor_number, cbor_string, encode_text, encode_value};
use crate::error::ActorError;
use crate::state::State;
use crate::store::BlockStore;
use crate::text::{greeting, greeting_text};
use crate::types::KeyValueType;
use vstd::prelude::*;

verus! {

/// The number of the method that initializes an actor.
pub const METHOD_CONSTRUCTOR: u64 = 1;

/// The identifier of the one caller that may initialize the actor.
pub const INIT_ACTOR_ID: u64 = 1;

/// The methods of the actor.
#[derive(Clone, Copy, Debug, PartialEq, Eq, Structural)]
pub enum Method {
    Constructor,
    SayHello,
    GetValue,
    SetValue,
}

impl Method {
    /// The number under which the method is called.
    pub open spec fn spec_number(self) -> u64 {
        match self {
            Method::Constructor => METHOD_CONSTRUCTOR,
            Method::SayHello => 2,
            Method::GetValue => 3,
            Method::SetValue => 4,
        }
    }

    /// The number under which the method is called.
    pub fn number(self) -> (n: u64)
        ensures
            n == self.spec_number(),
    {
        match self {
            Method::Constructor => METHOD_CONSTRUCTOR,
            Method::SayHello => 2,
            Method::GetValue => 3,
            Method::SetValue => 4,
        }
    }

    /// The method that is called under `n`, if there is one.
    pub fn from_u64(n: u64) -> (method: Option<Method>)
        ensures
            method matches Some(m) ==> m.spec_number() == n,
            method is None <==> n < 1 || n > 4,
    {
        if n == METHOD_CONSTRUCTOR {
            Some(Method::Constructor)
        } else if n == 2 {
            Some(Method::SayHello)
        } else if n == 3 {
            Some(Method::GetValue)
        } else if n == 4 {
            Some(Method::SetValue)
        } else {
            None
        }
    }
}

/// A reply as plain values: the bytes of its payload in place of the vector
/// that holds them.
pub open spec fn reply_view(r: Result<Option<Vec<u8>>, ActorError>) -> Result<
    Option<Seq<u8>>,
    ActorError,
> {
    match r {
        Ok(Some(bytes)) => Ok(Some(bytes@)),
        Ok(None) => Ok(None),
        Err(e) => Err(e),
    }
}

/// The actor.
pub struct Actor;

impl Actor {
    /// The reply of a greeting given in state `pre`: the encoded text that
    /// carries the new count.
    pub open spec fn say_hello_reply(pre: State) -> Result<Option<Seq<u8>>, ActorError> {
        Ok(Some(cbor_string(greeting((pre.count + 1) as u64))))
    }

    /// The state that a greeting given in state `pre` leaves.
    pub open spec fn say_hello_state(pre: State) -> State {
        State { count: (pre.count + 1) as u64, map: pre.map }
    }

    /// The reply of a read of `key` in state `pre`.
    pub open spec fn get_value_reply(pre: State, blocks: Map<cid::Cid, Seq<u8>>, key: u64) -> Result<
        Option<Seq<u8>>,
        ActorError,
    > {
        match pre.reads(blocks, key) {
            Ok(value) => Ok(Some(cbor_number(value))),
            Err(e) => Err(e),
        }
    }

    /// What `constructor` does: the store it leaves and the reply it gives.
    pub open spec fn constructor_post(
        caller: u64,
        pre: BlockStore,
        post: BlockStore,
        r: Result<State, ActorError>,
    ) -> bool {
        if caller == INIT_ACTOR_ID {
            State::new_post(pre, post, r)
        } else {
            r == Err::<State, ActorError>(ActorError::Forbidden) && post == pre
        }
    }
}

/// The methods of the actor, one transaction each.
pub trait HelloWorldActor {
    /// Initializes the actor: gives the state with a count of zero and an
    /// empty map, which the caller commits as the first state.
    ///
    /// Only the init actor may call; for it the call succeeds, and the state
    /// it gives is the same whatever the store held. For any other caller the
    /// call fails with `Forbidden`, gives no state and writes nothing.
    fn constructor(caller: u64, store: &mut BlockStore) -> (r: Result<State, ActorError>)
        requires
            old(store).wf(),
        ensures
            Actor::constructor_post(caller, *old(store), *final(store), r),
    ;

    /// Adds one to the count and replies with the encoded greeting that
    /// carries the new count.
    ///
    /// The reply and the state that is left depend on the state alone. An
    /// error of the encoder is mapped to `Greeting` and leaves the state as it
    /// was; it does not come while memory suffices.
    fn say_hello(st: &mut State) -> (r: Result<Option<Vec<u8>>, ActorError>)
        requires
            old(st).count < u64::MAX,
        ensures
            reply_view(r) == Actor::say_hello_reply(*old(st)),
            *final(st) == Actor::say_hello_state(*old(st)),
    ;

    /// Replies with the encoded value that `key` is bound to, or with the
    /// encoding of no value where it is bound to none. The state is only read.
    ///
    /// Fails with `LoadMap` or `ReadMap` where the map cannot be read. An
    /// error of the encoder is mapped to `Reply`; it does not come while
    /// memory suffices.
    fn get_value(st: &State, store: &BlockStore, key: u64) -> (r: Result<
        Option<Vec<u8>>,
        ActorError,
    >)
        ensures
            reply_view(r) == Actor::get_value_reply(*st, store@, key),
    ;

    /// Binds the key of `params` to its value. Where that fails the error is
    /// `ModifyMap` and the state is as it was.
    fn set_value(st: &mut State, store: &mut BlockStore, params: KeyValueType) -> (r: Result<
        (),
        ActorError,
    >)
        requires
            old(store).wf(),
        ensures
            old(st).set_value_post(
                *old(store),
                params.key,
                params.value,
                *final(st),
                *final(store),
                r,
            ),
    ;
}

impl HelloWorldActor for Actor {
    fn constructor(caller: u64, store: &mut BlockStore) -> (r: Result<State, ActorError>)
    {
        if caller != INIT_ACTOR_ID {
            return Err(ActorError::Forbidden);
        }
        State::new(store)
    }

    fn say_hello(st: &mut State) -> (r: Result<Option<Vec<u8>>, ActorError>)
    {
        let mut staged = *st;
        staged.increment();
        let text = greeting_text(staged.count);
        match encode_text(text.as_str()) {
            Ok(bytes) => {
                *st = staged;
                Ok(Some(bytes))
            },
            Err(_) => Err(ActorError::Greeting),
        }
    }

    fn get_value(st: &State, store: &BlockStore, key: u64) -> (r: Result<
        Option<Vec<u8>>,
        ActorError,
    >)
    {
        match st.get_value(store, key) {
            Ok(value) => match encode_value(value) {
                Ok(bytes) => Ok(Some(bytes)),
                Err(_) => Err(ActorError::Reply),
            },
            Err(e) => Err(e),
        }
    }

    fn set_value(st: &mut State, store: &mut BlockStore, params: KeyValueType) -> (r: Result<
        (),
        ActorError,
    >)
    {
        let mut staged = *st;
        match staged.set_value(store, params.key, params.value) {
            Ok(_) => {
                *st = staged;
                Ok(())
            },
            Err(e) => Err(e),
        }
    }
}

} // verus!
