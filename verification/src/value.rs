//! The values of message fields.

use vstd::prelude::*;

verus! {

/// What a field of a message holds. A message holds one slot for each of its
/// declared fields, in declaration order.
#[derive(Debug, PartialEq, Eq)]
pub enum Value {
    /// Nothing: a field that was not set.
    Unset,
    Bool(bool),
    Int32(i32),
    Int64(i64),
    Uint32(u32),
    Uint64(u64),
    String(String),
    /// The discriminant of an enum, declared or not.
    Enum(i32),
    /// The slots of a message.
    Message(Vec<Value>),
    /// The elements of a repeated field, in order.
    List(Vec<Value>),
    /// The entries of a map field, in order.
    Entries(Vec<(String, Value)>),
}

/// The mathematical value of a [`Value`].
pub enum ValueView {
    Unset,
    Bool(bool),
    Int32(i32),
    Int64(i64),
    Uint32(u32),
    Uint64(u64),
    String(Seq<char>),
    Enum(i32),
    Message(Seq<ValueView>),
    List(Seq<ValueView>),
    Entries(Seq<(Seq<char>, ValueView)>),
}

/// The mathematical value of `value`.
pub open spec fn value_view(value: Value) -> ValueView
    decreases value,
{
    match value {
        Value::Unset => ValueView::Unset,
        Value::Bool(b) => ValueView::Bool(b),
        Value::Int32(n) => ValueView::Int32(n),
        Value::Int64(n) => ValueView::Int64(n),
        Value::Uint32(n) => ValueView::Uint32(n),
        Value::Uint64(n) => ValueView::Uint64(n),
        Value::String(s) => ValueView::String(s@),
        Value::Enum(n) => ValueView::Enum(n),
        Value::Message(slots) => ValueView::Message(values_view(slots@)),
        Value::List(items) => ValueView::List(values_view(items@)),
        Value::Entries(entries) => ValueView::Entries(entries_view(entries@)),
    }
}

/// The mathematical values of a sequence of values, in order.
pub open spec fn values_view(values: Seq<Value>) -> Seq<ValueView>
    decreases values,
{
    Seq::new(
        values.len(),
        |i: int|
            if 0 <= i < values.len() {
                value_view(values[i])
            } else {
                ValueView::Unset
            },
    )
}

/// The keys and mathematical values of the entries of a map field, in order.
pub open spec fn entries_view(entries: Seq<(String, Value)>) -> Seq<(Seq<char>, ValueView)>
    decreases entries,
{
    Seq::new(
        entries.len(),
        |i: int|
            if 0 <= i < entries.len() {
                (entries[i].0@, value_view(entries[i].1))
            } else {
                (Seq::empty(), ValueView::Unset)
            },
    )
}

impl View for Value {
    type V = ValueView;

    open spec fn view(&self) -> ValueView {
        value_view(*self)
    }
}

} // verus!
