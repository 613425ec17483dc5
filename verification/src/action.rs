//! What an invocation asks of the host: signatures, writes, calls of other
//! contracts and published notices, each as a plain value.

use crate::types::{Address, DataKey, DataKeyView};
use vstd::prelude::*;

verus! {

/// An argument of a call, or a part of a published notice.
#[derive(Debug, PartialEq, Eq)]
pub enum Value {
    U32(u32),
    I128(i128),
    Address(Address),
    Bytes(Vec<u8>),
}

pub enum ValueView {
    U32(u32),
    I128(i128),
    Address(Seq<char>),
    Bytes(Seq<u8>),
}

impl View for Value {
    type V = ValueView;

    open spec fn view(&self) -> ValueView {
        match *self {
            Value::U32(number) => ValueView::U32(number),
            Value::I128(number) => ValueView::I128(number),
            Value::Address(address) => ValueView::Address(address@),
            Value::Bytes(bytes) => ValueView::Bytes(bytes@),
        }
    }
}

/// The values that a list of values stands for.
pub open spec fn value_views(values: Seq<Value>) -> Seq<ValueView> {
    values.map_values(|value: Value| value@)
}

/// One request to the host. A host carries out the requests of an invocation in
/// the order in which they were recorded, and undoes all of them if one of them
/// cannot be carried out or if the invocation fails.
#[derive(Debug, PartialEq, Eq)]
pub enum Action {
    /// Go on only if this address has signed the invocation.
    RequireAuth(Address),
    /// Write the entry under this key, as the environment now holds it.
    Write(DataKey),
    /// Keep the entry alive: if fewer than `threshold` ledgers are left to it,
    /// extend its life to `extend_to` ledgers from now.
    ExtendTtl { key: DataKey, threshold: u32, extend_to: u32 },
    /// Move an amount of a token from one holder to another.
    Transfer { token: Address, from: Address, to: Address, amount: i128 },
    /// Call a function of another contract.
    Invoke { contract: Address, function: String, args: Vec<Value> },
    /// Publish a notice under a topic. A single value is published as it is,
    /// several values as a tuple.
    Publish { topic: String, data: Vec<Value> },
}

pub enum ActionView {
    RequireAuth(Seq<char>),
    Write(DataKeyView),
    ExtendTtl { key: DataKeyView, threshold: u32, extend_to: u32 },
    Transfer { token: Seq<char>, from: Seq<char>, to: Seq<char>, amount: i128 },
    Invoke { contract: Seq<char>, function: Seq<char>, args: Seq<ValueView> },
    Publish { topic: Seq<char>, data: Seq<ValueView> },
}

impl View for Action {
    type V = ActionView;

    open spec fn view(&self) -> ActionView {
        match *self {
            Action::RequireAuth(address) => ActionView::RequireAuth(address@),
            Action::Write(key) => ActionView::Write(key@),
            Action::ExtendTtl { key, threshold, extend_to } => ActionView::ExtendTtl {
                key: key@,
                threshold,
                extend_to,
            },
            Action::Transfer { token, from, to, amount } => ActionView::Transfer {
                token: token@,
                from: from@,
                to: to@,
                amount,
            },
            Action::Invoke { contract, function, args } => ActionView::Invoke {
                contract: contract@,
                function: function@,
                args: value_views(args@),
            },
            Action::Publish { topic, data } => ActionView::Publish {
                topic: topic@,
                data: value_views(data@),
            },
        }
    }
}

/// The requests that a list of actions stands for.
pub open spec fn action_views(actions: Seq<Action>) -> Seq<ActionView> {
    actions.map_values(|action: Action| action@)
}

} // verus!
