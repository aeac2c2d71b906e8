//! The JSON mapping of a message: which fields are written, under which keys
//! and as which JSON values, and how an object is read back.

use vstd::prelude::*;
use crate::decimal::{decimal, decimal_string, parse_decimal, parse_int};
use crate::descriptor::{answers_to, Cardinality, FieldDescriptor, FieldType, Schema};
use crate::search::{first_match, lemma_first_match_is, lemma_first_match_none};
use crate::error::DecodeError;
use crate::json::{Json, JsonView, jsons_view, members_view};
use crate::value::{Value, ValueView, entries_view, values_view};

verus! {

/// The default of a singular field of type `field_type` that has no presence
/// of its own: zero, false, the empty string, the discriminant zero. A
/// message has no such default: its absence is its default.
pub open spec fn zero_value(field_type: FieldType) -> ValueView {
    match field_type {
        FieldType::Bool => ValueView::Bool(false),
        FieldType::Int32 => ValueView::Int32(0),
        FieldType::Int64 => ValueView::Int64(0),
        FieldType::Uint32 => ValueView::Uint32(0),
        FieldType::Uint64 => ValueView::Uint64(0),
        FieldType::String => ValueView::String(Seq::empty()),
        FieldType::Enum(_) => ValueView::Enum(0),
        FieldType::Message(_) => ValueView::Unset,
    }
}

/// What a field holds when nothing was read for it.
pub open spec fn default_slot(field: FieldDescriptor) -> ValueView {
    match field.cardinality {
        Cardinality::Repeated => ValueView::List(Seq::empty()),
        Cardinality::Mapped => ValueView::Entries(Seq::empty()),
        Cardinality::Singular => if field.elide_default {
            zero_value(field.field_type)
        } else {
            ValueView::Unset
        },
    }
}

/// The slots of a message of which no field was read.
pub open spec fn default_slots(fields: Seq<FieldDescriptor>) -> Seq<ValueView> {
    Seq::new(fields.len(), |i: int| default_slot(fields[i]))
}

/// Whether a field that holds `value` is left out of the output: when it is
/// unset, and when the field elides its default and holds it.
pub open spec fn omitted(field: FieldDescriptor, value: ValueView) -> bool {
    value is Unset || (field.elide_default && value == default_slot(field))
}

/// The JSON value of `value` in a field of type `field_type`.
pub open spec fn encoded_value(schema: Schema, field_type: FieldType, value: ValueView) -> JsonView
    decreases value, 0nat,
{
    match value {
        ValueView::Unset => JsonView::Null,
        ValueView::Bool(b) => JsonView::Bool(b),
        ValueView::Int32(n) => JsonView::Number(n as int),
        ValueView::Uint32(n) => JsonView::Number(n as int),
        ValueView::Int64(n) => JsonView::String(decimal(n as int)),
        ValueView::Uint64(n) => JsonView::String(decimal(n as int)),
        ValueView::String(s) => JsonView::String(s),
        ValueView::Enum(n) => match field_type {
            FieldType::Enum(e) => if e < schema.enums@.len() {
                JsonView::String(schema.enums@[e as int].encode_text(n))
            } else {
                JsonView::String(decimal(n as int))
            },
            _ => JsonView::String(decimal(n as int)),
        },
        ValueView::Message(slots) => match field_type {
            FieldType::Message(m) => if m < schema.messages@.len() {
                JsonView::Object(
                    encoded_members(
                        schema,
                        schema.messages@[m as int].fields@,
                        slots,
                        schema.messages@[m as int].fields@.len(),
                    ),
                )
            } else {
                JsonView::Null
            },
            _ => JsonView::Null,
        },
        ValueView::List(items) => JsonView::Array(encoded_items(schema, field_type, items)),
        ValueView::Entries(entries) => JsonView::Object(
            encoded_entries(schema, field_type, entries),
        ),
    }
}

/// The JSON values of the elements of a repeated field, in order.
pub open spec fn encoded_items(schema: Schema, field_type: FieldType, items: Seq<ValueView>) -> Seq<
    JsonView,
>
    decreases items, 0nat,
{
    Seq::new(
        items.len(),
        |i: int|
            if 0 <= i < items.len() {
                encoded_value(schema, field_type, items[i])
            } else {
                JsonView::Null
            },
    )
}

/// The members written for the entries of a map field: each entry under its
/// key, in order.
pub open spec fn encoded_entries(
    schema: Schema,
    field_type: FieldType,
    entries: Seq<(Seq<char>, ValueView)>,
) -> Seq<(Seq<char>, JsonView)>
    decreases entries, 0nat,
{
    Seq::new(
        entries.len(),
        |i: int|
            if 0 <= i < entries.len() {
                (entries[i].0, encoded_value(schema, field_type, entries[i].1))
            } else {
                (Seq::empty(), JsonView::Null)
            },
    )
}

/// The members written for the first `n` of `fields`, in declaration order:
/// one for each field that is not omitted, under its canonical name.
pub open spec fn encoded_members(
    schema: Schema,
    fields: Seq<FieldDescriptor>,
    slots: Seq<ValueView>,
    n: nat,
) -> Seq<(Seq<char>, JsonView)>
    decreases slots, n,
{
    if n == 0 {
        Seq::empty()
    } else {
        let before = encoded_members(schema, fields, slots, (n - 1) as nat);
        let i = n - 1;
        if i < fields.len() && i < slots.len() && !omitted(fields[i], slots[i]) {
            before.push(
                (fields[i].json_name@, encoded_value(schema, fields[i].field_type, slots[i])),
            )
        } else {
            before
        }
    }
}

/// The JSON value of `value` as a message of type number `m`: an object, if
/// the value is a message.
pub open spec fn encoded_message(schema: Schema, m: usize, value: ValueView) -> JsonView {
    encoded_value(schema, FieldType::Message(m), value)
}

/// The integer that a JSON value gives to an integer field whose type holds
/// `min` to `max`: a number in that range, or, where `text_allowed`, a string
/// that spells one.
pub open spec fn decoded_integer(json: JsonView, min: int, max: int, text_allowed: bool) -> Option<
    int,
> {
    match json {
        JsonView::Number(n) => if min <= n <= max {
            Some(n)
        } else {
            None
        },
        JsonView::String(s) => match parse_int(s) {
            Some(n) => if text_allowed && min <= n <= max {
                Some(n)
            } else {
                None
            },
            None => None,
        },
        _ => None,
    }
}

/// The slots after `value` was read for field number `f`: that slot holds the
/// value, and where the value sets a member of a oneof group, the other
/// members of the group are unset.
pub open spec fn assigned(
    fields: Seq<FieldDescriptor>,
    slots: Seq<ValueView>,
    f: int,
    value: ValueView,
) -> Seq<ValueView> {
    Seq::new(
        slots.len(),
        |i: int|
            if i == f {
                value
            } else if !(value is Unset) && fields[f].oneof is Some && fields[i].oneof
                == fields[f].oneof {
                ValueView::Unset
            } else {
                slots[i]
            },
    )
}

/// What one JSON value gives to one value of type `field_type`, or why it
/// gives none.
pub open spec fn decoded_single(schema: Schema, field_type: FieldType, json: JsonView) -> Result<
    ValueView,
    DecodeError,
>
    decreases json, 0nat,
{
    match field_type {
        FieldType::Bool => match json {
            JsonView::Bool(b) => Ok(ValueView::Bool(b)),
            _ => Err(DecodeError::TypeMismatch),
        },
        FieldType::Int32 => match decoded_integer(json, i32::MIN as int, i32::MAX as int, false) {
            Some(n) => Ok(ValueView::Int32(n as i32)),
            None => Err(DecodeError::TypeMismatch),
        },
        FieldType::Uint32 => match decoded_integer(json, 0, u32::MAX as int, false) {
            Some(n) => Ok(ValueView::Uint32(n as u32)),
            None => Err(DecodeError::TypeMismatch),
        },
        FieldType::Int64 => match decoded_integer(json, i64::MIN as int, i64::MAX as int, true) {
            Some(n) => Ok(ValueView::Int64(n as i64)),
            None => Err(DecodeError::TypeMismatch),
        },
        FieldType::Uint64 => match decoded_integer(json, 0, u64::MAX as int, true) {
            Some(n) => Ok(ValueView::Uint64(n as u64)),
            None => Err(DecodeError::TypeMismatch),
        },
        FieldType::String => match json {
            JsonView::String(s) => Ok(ValueView::String(s)),
            _ => Err(DecodeError::TypeMismatch),
        },
        FieldType::Enum(e) => if e < schema.enums@.len() {
            match json {
                JsonView::String(s) => match schema.enums@[e as int].decode_text(s) {
                    Some(n) => Ok(ValueView::Enum(n)),
                    None => Err(DecodeError::UnrecognizedEnumValue),
                },
                JsonView::Number(n) => match schema.enums@[e as int].decode_int(n) {
                    Some(n) => Ok(ValueView::Enum(n)),
                    None => Err(DecodeError::UnrecognizedEnumValue),
                },
                _ => Err(DecodeError::TypeMismatch),
            }
        } else {
            Err(DecodeError::TypeMismatch)
        },
        FieldType::Message(m) => if m < schema.messages@.len() {
            match json {
                JsonView::Object(members) => match decoded_members(
                    schema,
                    schema.messages@[m as int].fields@,
                    members,
                    members.len(),
                ) {
                    Ok(slots) => Ok(ValueView::Message(slots)),
                    Err(e) => Err(e),
                },
                _ => Err(DecodeError::TypeMismatch),
            }
        } else {
            Err(DecodeError::TypeMismatch)
        },
    }
}

/// What the first `n` elements of an array give to a repeated field: their
/// values in order, or the failure of the first element that fails.
pub open spec fn decoded_items(
    schema: Schema,
    field_type: FieldType,
    items: Seq<JsonView>,
    n: nat,
) -> Result<Seq<ValueView>, DecodeError>
    decreases items, n,
{
    if n == 0 {
        Ok(Seq::empty())
    } else if n > items.len() {
        decoded_items(schema, field_type, items, (n - 1) as nat)
    } else {
        match decoded_items(schema, field_type, items, (n - 1) as nat) {
            Err(e) => Err(e),
            Ok(values) => match decoded_single(schema, field_type, items[n - 1]) {
                Err(e) => Err(e),
                Ok(value) => Ok(values.push(value)),
            },
        }
    }
}

/// What the first `n` members of an object give to a map field: their keys
/// and values in order, or the failure of the first member that fails.
pub open spec fn decoded_entries(
    schema: Schema,
    field_type: FieldType,
    members: Seq<(Seq<char>, JsonView)>,
    n: nat,
) -> Result<Seq<(Seq<char>, ValueView)>, DecodeError>
    decreases members, n,
{
    if n == 0 {
        Ok(Seq::empty())
    } else if n > members.len() {
        decoded_entries(schema, field_type, members, (n - 1) as nat)
    } else {
        match decoded_entries(schema, field_type, members, (n - 1) as nat) {
            Err(e) => Err(e),
            Ok(entries) => match decoded_single(schema, field_type, members[n - 1].1) {
                Err(e) => Err(e),
                Ok(value) => Ok(entries.push((members[n - 1].0, value))),
            },
        }
    }
}

/// What a JSON value gives to a field: `null` gives the field's default, an
/// array gives a repeated field its elements, an object gives a map field its
/// entries, and any other value is read as one value of the field's type.
pub open spec fn decoded_slot(schema: Schema, field: FieldDescriptor, json: JsonView) -> Result<
    ValueView,
    DecodeError,
>
    decreases json, 1nat,
{
    match json {
        JsonView::Null => Ok(default_slot(field)),
        _ => match field.cardinality {
            Cardinality::Singular => decoded_single(schema, field.field_type, json),
            Cardinality::Repeated => match json {
                JsonView::Array(items) => match decoded_items(
                    schema,
                    field.field_type,
                    items,
                    items.len(),
                ) {
                    Ok(values) => Ok(ValueView::List(values)),
                    Err(e) => Err(e),
                },
                _ => Err(DecodeError::TypeMismatch),
            },
            Cardinality::Mapped => match json {
                JsonView::Object(members) => match decoded_entries(
                    schema,
                    field.field_type,
                    members,
                    members.len(),
                ) {
                    Ok(entries) => Ok(ValueView::Entries(entries)),
                    Err(e) => Err(e),
                },
                _ => Err(DecodeError::TypeMismatch),
            },
        },
    }
}

/// The slots of a message after its first `n` members were read in order,
/// starting from the defaults. A member whose key names a field is read into
/// that field; a member whose key names none is passed over. The first member
/// that fails stops the reading with its failure.
pub open spec fn decoded_members(
    schema: Schema,
    fields: Seq<FieldDescriptor>,
    members: Seq<(Seq<char>, JsonView)>,
    n: nat,
) -> Result<Seq<ValueView>, DecodeError>
    decreases members, n,
{
    if n == 0 {
        Ok(default_slots(fields))
    } else if n > members.len() {
        decoded_members(schema, fields, members, (n - 1) as nat)
    } else {
        match decoded_members(schema, fields, members, (n - 1) as nat) {
            Err(e) => Err(e),
            Ok(slots) => match first_match(fields, answers_to(members[n - 1].0)) {
                None => Ok(slots),
                Some(f) => match decoded_slot(schema, fields[f], members[n - 1].1) {
                    Err(e) => Err(e),
                    Ok(value) => Ok(assigned(fields, slots, f, value)),
                },
            },
        }
    }
}

/// What a JSON value gives to a message of type number `m`.
pub open spec fn decoded_message(schema: Schema, m: usize, json: JsonView) -> Result<
    ValueView,
    DecodeError,
> {
    decoded_single(schema, FieldType::Message(m), json)
}

/// The value that a field holds when nothing was read for it.
pub fn default_value(field: &FieldDescriptor) -> (value: Value)
    ensures
        value@ == default_slot(*field),
{
    match field.cardinality {
        Cardinality::Repeated => {
            let items: Vec<Value> = Vec::new();
            assert(values_view(items@) =~= Seq::empty());
            Value::List(items)
        },
        Cardinality::Mapped => {
            let entries: Vec<(String, Value)> = Vec::new();
            assert(entries_view(entries@) =~= Seq::empty());
            Value::Entries(entries)
        },
        Cardinality::Singular => if field.elide_default {
            match field.field_type {
                FieldType::Bool => Value::Bool(false),
                FieldType::Int32 => Value::Int32(0),
                FieldType::Int64 => Value::Int64(0),
                FieldType::Uint32 => Value::Uint32(0),
                FieldType::Uint64 => Value::Uint64(0),
                FieldType::String => Value::String(String::new()),
                FieldType::Enum(_) => Value::Enum(0),
                FieldType::Message(_) => Value::Unset,
            }
        } else {
            Value::Unset
        },
    }
}

/// Whether `value` is the default of a singular field of type `field_type`.
fn is_zero(field_type: FieldType, value: &Value) -> (zero: bool)
    ensures
        zero == (value@ == zero_value(field_type)),
{
    match (field_type, value) {
        (FieldType::Bool, Value::Bool(b)) => !*b,
        (FieldType::Int32, Value::Int32(n)) => *n == 0,
        (FieldType::Int64, Value::Int64(n)) => *n == 0,
        (FieldType::Uint32, Value::Uint32(n)) => *n == 0,
        (FieldType::Uint64, Value::Uint64(n)) => *n == 0,
        (FieldType::String, Value::String(s)) => {
            let empty = s.as_str().is_empty();
            assert(empty == (s@ =~= Seq::<char>::empty()));
            empty
        },
        (FieldType::Enum(_), Value::Enum(n)) => *n == 0,
        (FieldType::Message(_), Value::Unset) => true,
        _ => false,
    }
}

/// Whether a field that holds `value` is left out of the output.
pub fn is_omitted(field: &FieldDescriptor, value: &Value) -> (left_out: bool)
    ensures
        left_out == omitted(*field, value@),
{
    match value {
        Value::Unset => true,
        Value::List(items) => {
            assert(values_view(items@).len() == items@.len());
            assert(items@.len() == 0 ==> values_view(items@) =~= Seq::empty());
            field.elide_default && field.cardinality == Cardinality::Repeated && items.len() == 0
        },
        Value::Entries(entries) => {
            assert(entries_view(entries@).len() == entries@.len());
            assert(entries@.len() == 0 ==> entries_view(entries@) =~= Seq::empty());
            field.elide_default && field.cardinality == Cardinality::Mapped && entries.len() == 0
        },
        _ => field.elide_default && field.cardinality == Cardinality::Singular && is_zero(
            field.field_type,
            value,
        ),
    }
}

/// Writes `value`, held by a field of type `field_type`, as JSON.
pub fn encode_value(schema: &Schema, field_type: FieldType, value: &Value) -> (json: Json)
    ensures
        json@ == encoded_value(*schema, field_type, value@),
    decreases value,
{
    match value {
        Value::Unset => Json::Null,
        Value::Bool(b) => Json::Bool(*b),
        Value::Int32(n) => Json::Number(*n as i64),
        Value::Uint32(n) => Json::Number(*n as i64),
        Value::Int64(n) => Json::String(decimal_string(*n as i128)),
        Value::Uint64(n) => Json::String(decimal_string(*n as i128)),
        Value::String(s) => Json::String(s.clone()),
        Value::Enum(n) => match field_type {
            FieldType::Enum(e) => if e < schema.enums.len() {
                Json::String(schema.enums[e].encode(*n))
            } else {
                Json::String(decimal_string(*n as i128))
            },
            _ => Json::String(decimal_string(*n as i128)),
        },
        Value::Message(slots) => match field_type {
            FieldType::Message(m) => if m < schema.messages.len() {
                Json::Object(encode_fields(schema, &schema.messages[m].fields, slots))
            } else {
                Json::Null
            },
            _ => Json::Null,
        },
        Value::List(items) => Json::Array(encode_items(schema, field_type, items)),
        Value::Entries(entries) => Json::Object(encode_entries(schema, field_type, entries)),
    }
}

/// Writes the elements of a repeated field, in order.
fn encode_items(schema: &Schema, field_type: FieldType, items: &Vec<Value>) -> (jsons: Vec<Json>)
    ensures
        jsons_view(jsons@) == encoded_items(*schema, field_type, values_view(items@)),
    decreases items,
{
    let mut jsons: Vec<Json> = Vec::new();
    let mut i: usize = 0;
    while i < items.len()
        invariant
            i <= items.len(),
            jsons@.len() == i,
            forall|k: int|
                0 <= k < i ==> (#[trigger] jsons@[k])@ == encoded_value(
                    *schema,
                    field_type,
                    items@[k]@,
                ),
        decreases items.len() - i,
    {
        let json = encode_value(schema, field_type, &items[i]);
        jsons.push(json);
        i = i + 1;
    }
    assert(jsons_view(jsons@) =~= encoded_items(*schema, field_type, values_view(items@)));
    jsons
}

/// Writes the entries of a map field, in order.
fn encode_entries(schema: &Schema, field_type: FieldType, entries: &Vec<(String, Value)>) -> (members:
    Vec<(String, Json)>)
    ensures
        members_view(members@) == encoded_entries(*schema, field_type, entries_view(entries@)),
    decreases entries,
{
    let mut members: Vec<(String, Json)> = Vec::new();
    let mut i: usize = 0;
    while i < entries.len()
        invariant
            i <= entries.len(),
            members@.len() == i,
            forall|k: int|
                0 <= k < i ==> (#[trigger] members@[k]).0@ == entries@[k].0@ && members@[k].1@
                    == encoded_value(*schema, field_type, entries@[k].1@),
        decreases entries.len() - i,
    {
        let json = encode_value(schema, field_type, &entries[i].1);
        members.push((entries[i].0.clone(), json));
        i = i + 1;
    }
    assert(members_view(members@) =~= encoded_entries(
        *schema,
        field_type,
        entries_view(entries@),
    ));
    members
}

/// Writes the members of a message: one for each field that is not omitted,
/// in declaration order.
fn encode_fields(schema: &Schema, fields: &Vec<FieldDescriptor>, slots: &Vec<Value>) -> (members:
    Vec<(String, Json)>)
    ensures
        members_view(members@) == encoded_members(
            *schema,
            fields@,
            values_view(slots@),
            fields@.len(),
        ),
    decreases slots,
{
    let mut members: Vec<(String, Json)> = Vec::new();
    let mut i: usize = 0;
    assert(members_view(members@) =~= Seq::empty());
    while i < fields.len()
        invariant
            i <= fields.len(),
            members_view(members@) == encoded_members(
                *schema,
                fields@,
                values_view(slots@),
                i as nat,
            ),
        decreases fields.len() - i,
    {
        if i < slots.len() && !is_omitted(&fields[i], &slots[i]) {
            let json = encode_value(schema, fields[i].field_type, &slots[i]);
            let ghost before = members_view(members@);
            members.push((fields[i].json_name.clone(), json));
            assert(members_view(members@) =~= before.push((fields@[i as int].json_name@, json@)));
        }
        i = i + 1;
    }
    members
}

/// Writes `value` as the JSON object of a message of type number `m`.
pub fn encode_message(schema: &Schema, m: usize, value: &Value) -> (json: Json)
    ensures
        json@ == encoded_message(*schema, m, value@),
{
    encode_value(schema, FieldType::Message(m), value)
}

/// The mathematical value of the outcome of reading one value.
pub open spec fn value_result_view(outcome: Result<Value, DecodeError>) -> Result<
    ValueView,
    DecodeError,
> {
    match outcome {
        Ok(value) => Ok(value@),
        Err(e) => Err(e),
    }
}

/// The mathematical value of the outcome of reading a sequence of values.
pub open spec fn values_result_view(outcome: Result<Vec<Value>, DecodeError>) -> Result<
    Seq<ValueView>,
    DecodeError,
> {
    match outcome {
        Ok(values) => Ok(values_view(values@)),
        Err(e) => Err(e),
    }
}

/// The mathematical value of the outcome of reading the entries of a map
/// field.
pub open spec fn entries_result_view(outcome: Result<Vec<(String, Value)>, DecodeError>) -> Result<
    Seq<(Seq<char>, ValueView)>,
    DecodeError,
> {
    match outcome {
        Ok(entries) => Ok(entries_view(entries@)),
        Err(e) => Err(e),
    }
}

/// Once an element has failed, reading more elements changes nothing.
proof fn lemma_items_failure_sticks(
    schema: Schema,
    field_type: FieldType,
    items: Seq<JsonView>,
    n: nat,
    k: nat,
)
    requires
        n <= k,
        decoded_items(schema, field_type, items, n) is Err,
    ensures
        decoded_items(schema, field_type, items, k) == decoded_items(schema, field_type, items, n),
    decreases k,
{
    if k > n {
        lemma_items_failure_sticks(schema, field_type, items, n, (k - 1) as nat);
    }
}

/// Once an entry has failed, reading more entries changes nothing.
proof fn lemma_entries_failure_sticks(
    schema: Schema,
    field_type: FieldType,
    members: Seq<(Seq<char>, JsonView)>,
    n: nat,
    k: nat,
)
    requires
        n <= k,
        decoded_entries(schema, field_type, members, n) is Err,
    ensures
        decoded_entries(schema, field_type, members, k) == decoded_entries(
            schema,
            field_type,
            members,
            n,
        ),
    decreases k,
{
    if k > n {
        lemma_entries_failure_sticks(schema, field_type, members, n, (k - 1) as nat);
    }
}

/// Once a member has failed, reading more members changes nothing.
proof fn lemma_members_failure_sticks(
    schema: Schema,
    fields: Seq<FieldDescriptor>,
    members: Seq<(Seq<char>, JsonView)>,
    n: nat,
    k: nat,
)
    requires
        n <= k,
        decoded_members(schema, fields, members, n) is Err,
    ensures
        decoded_members(schema, fields, members, k) == decoded_members(schema, fields, members, n),
    decreases k,
{
    if k > n {
        lemma_members_failure_sticks(schema, fields, members, n, (k - 1) as nat);
    }
}

/// Reads an integer between `min` and `max` from a JSON number, or, where
/// `text_allowed`, from a JSON string.
fn decode_integer(json: &Json, min: i128, max: i128, text_allowed: bool) -> (number: Option<i128>)
    ensures
        match decoded_integer(json@, min as int, max as int, text_allowed) {
            Some(n) => number == Some(n as i128) && min <= n <= max,
            None => number is None,
        },
{
    match json {
        Json::Number(n) => {
            let wide = *n as i128;
            if min <= wide && wide <= max {
                Some(wide)
            } else {
                None
            }
        },
        Json::String(s) => if text_allowed {
            parse_decimal(s.as_str(), min, max)
        } else {
            None
        },
        _ => None,
    }
}

/// Finds the field that the JSON key `key` names.
pub fn find_field(fields: &Vec<FieldDescriptor>, key: &String) -> (found: Option<usize>)
    ensures
        match found {
            Some(f) => f < fields@.len() && first_match(fields@, answers_to(key@)) == Some(
                f as int,
            ),
            None => first_match(fields@, answers_to(key@)) is None,
        },
{
    let mut i: usize = 0;
    while i < fields.len()
        invariant
            i <= fields.len(),
            forall|j: int| 0 <= j < i ==> !answers_to(key@)(fields@[j]),
        decreases fields.len() - i,
    {
        if fields[i].json_name == *key || fields[i].name == *key {
            proof {
                lemma_first_match_is(fields@, answers_to(key@), i as int);
            }
            return Some(i);
        }
        i = i + 1;
    }
    proof {
        lemma_first_match_none(fields@, answers_to(key@));
    }
    None
}

/// The slots of a message of which no field was read.
fn default_values(fields: &Vec<FieldDescriptor>) -> (slots: Vec<Value>)
    ensures
        slots@.len() == fields@.len(),
        values_view(slots@) == default_slots(fields@),
{
    let mut slots: Vec<Value> = Vec::new();
    let mut i: usize = 0;
    while i < fields.len()
        invariant
            i <= fields.len(),
            slots@.len() == i,
            forall|k: int| 0 <= k < i ==> (#[trigger] slots@[k])@ == default_slot(fields@[k]),
        decreases fields.len() - i,
    {
        slots.push(default_value(&fields[i]));
        i = i + 1;
    }
    assert(values_view(slots@) =~= default_slots(fields@));
    slots
}

/// Puts `value` into slot number `f`; where that sets a member of a oneof
/// group, unsets the other members of the group.
fn assign_slot(fields: &Vec<FieldDescriptor>, slots: &mut Vec<Value>, f: usize, value: Value)
    requires
        f < fields@.len(),
        old(slots)@.len() == fields@.len(),
    ensures
        final(slots)@.len() == fields@.len(),
        values_view(final(slots)@) == assigned(
            fields@,
            values_view(old(slots)@),
            f as int,
            value@,
        ),
{
    let ghost before = values_view(slots@);
    let sets = match value {
        Value::Unset => false,
        _ => true,
    };
    match fields[f].oneof {
        Some(group) => if sets {
            let mut i: usize = 0;
            while i < slots.len()
                invariant
                    i <= slots@.len(),
                    slots@.len() == fields@.len(),
                    f < fields@.len(),
                    fields@[f as int].oneof == Some(group),
                    before.len() == slots@.len(),
                    forall|k: int|
                        0 <= k < slots@.len() ==> (#[trigger] slots@[k])@ == if k < i && k != f
                            && fields@[k].oneof == Some(group) {
                            ValueView::Unset
                        } else {
                            before[k]
                        },
                decreases slots@.len() - i,
            {
                let same = match fields[i].oneof {
                    Some(other) => other == group,
                    None => false,
                };
                if i != f && same {
                    slots.set(i, Value::Unset);
                }
                i = i + 1;
            }
        },
        None => {},
    }
    let ghost value_before = value@;
    slots.set(f, value);
    assert(values_view(slots@) =~= assigned(fields@, before, f as int, value_before));
}

/// Reads one value of type `field_type` from `json`.
pub fn decode_value(schema: &Schema, field_type: FieldType, json: &Json) -> (decoded: Result<
    Value,
    DecodeError,
>)
    ensures
        value_result_view(decoded) == decoded_single(*schema, field_type, json@),
    decreases json, 0nat,
{
    match field_type {
        FieldType::Bool => match json {
            Json::Bool(b) => Ok(Value::Bool(*b)),
            _ => Err(DecodeError::TypeMismatch),
        },
        FieldType::Int32 => match decode_integer(json, -2147483648, 2147483647, false) {
            Some(n) => Ok(Value::Int32(n as i32)),
            None => Err(DecodeError::TypeMismatch),
        },
        FieldType::Uint32 => match decode_integer(json, 0, 4294967295, false) {
            Some(n) => Ok(Value::Uint32(n as u32)),
            None => Err(DecodeError::TypeMismatch),
        },
        FieldType::Int64 => match decode_integer(
            json,
            -9223372036854775808,
            9223372036854775807,
            true,
        ) {
            Some(n) => Ok(Value::Int64(n as i64)),
            None => Err(DecodeError::TypeMismatch),
        },
        FieldType::Uint64 => match decode_integer(json, 0, 18446744073709551615, true) {
            Some(n) => Ok(Value::Uint64(n as u64)),
            None => Err(DecodeError::TypeMismatch),
        },
        FieldType::String => match json {
            Json::String(s) => Ok(Value::String(s.clone())),
            _ => Err(DecodeError::TypeMismatch),
        },
        FieldType::Enum(e) => if e < schema.enums.len() {
            match json {
                Json::String(s) => match schema.enums[e].decode(s.as_str()) {
                    Ok(n) => Ok(Value::Enum(n)),
                    Err(failure) => Err(failure),
                },
                Json::Number(n) => match schema.enums[e].decode_number(*n) {
                    Ok(n) => Ok(Value::Enum(n)),
                    Err(failure) => Err(failure),
                },
                _ => Err(DecodeError::TypeMismatch),
            }
        } else {
            Err(DecodeError::TypeMismatch)
        },
        FieldType::Message(m) => if m < schema.messages.len() {
            match json {
                Json::Object(members) => match decode_fields(
                    schema,
                    &schema.messages[m].fields,
                    members,
                ) {
                    Ok(slots) => Ok(Value::Message(slots)),
                    Err(failure) => Err(failure),
                },
                _ => Err(DecodeError::TypeMismatch),
            }
        } else {
            Err(DecodeError::TypeMismatch)
        },
    }
}

/// Reads the elements of a repeated field from the elements of an array.
fn decode_items(schema: &Schema, field_type: FieldType, items: &Vec<Json>) -> (decoded: Result<
    Vec<Value>,
    DecodeError,
>)
    ensures
        values_result_view(decoded) == decoded_items(
            *schema,
            field_type,
            jsons_view(items@),
            items@.len(),
        ),
    decreases items, 0nat,
{
    let mut values: Vec<Value> = Vec::new();
    let mut i: usize = 0;
    assert(values_view(values@) =~= Seq::empty());
    while i < items.len()
        invariant
            i <= items.len(),
            decoded_items(*schema, field_type, jsons_view(items@), i as nat) == Ok::<
                Seq<ValueView>,
                DecodeError,
            >(values_view(values@)),
        decreases items.len() - i,
    {
        match decode_value(schema, field_type, &items[i]) {
            Err(failure) => {
                proof {
                    lemma_items_failure_sticks(
                        *schema,
                        field_type,
                        jsons_view(items@),
                        (i + 1) as nat,
                        items@.len(),
                    );
                }
                return Err(failure);
            },
            Ok(value) => {
                let ghost before = values_view(values@);
                let ghost read = value@;
                values.push(value);
                assert(values_view(values@) =~= before.push(read));
            },
        }
        i = i + 1;
    }
    Ok(values)
}

/// Reads the entries of a map field from the members of an object.
fn decode_entries(schema: &Schema, field_type: FieldType, members: &Vec<(String, Json)>) -> (decoded:
    Result<Vec<(String, Value)>, DecodeError>)
    ensures
        entries_result_view(decoded) == decoded_entries(
            *schema,
            field_type,
            members_view(members@),
            members@.len(),
        ),
    decreases members, 0nat,
{
    let mut entries: Vec<(String, Value)> = Vec::new();
    let mut i: usize = 0;
    assert(entries_view(entries@) =~= Seq::empty());
    while i < members.len()
        invariant
            i <= members.len(),
            decoded_entries(*schema, field_type, members_view(members@), i as nat) == Ok::<
                Seq<(Seq<char>, ValueView)>,
                DecodeError,
            >(entries_view(entries@)),
        decreases members.len() - i,
    {
        match decode_value(schema, field_type, &members[i].1) {
            Err(failure) => {
                proof {
                    lemma_entries_failure_sticks(
                        *schema,
                        field_type,
                        members_view(members@),
                        (i + 1) as nat,
                        members@.len(),
                    );
                }
                return Err(failure);
            },
            Ok(value) => {
                let ghost before = entries_view(entries@);
                let ghost read = value@;
                entries.push((members[i].0.clone(), value));
                assert(entries_view(entries@) =~= before.push((members@[i as int].0@, read)));
            },
        }
        i = i + 1;
    }
    Ok(entries)
}

/// Reads what one JSON value gives to the field `field`.
fn decode_slot(schema: &Schema, field: &FieldDescriptor, json: &Json) -> (decoded: Result<
    Value,
    DecodeError,
>)
    ensures
        value_result_view(decoded) == decoded_slot(*schema, *field, json@),
    decreases json, 1nat,
{
    match json {
        Json::Null => Ok(default_value(field)),
        _ => match field.cardinality {
            Cardinality::Singular => decode_value(schema, field.field_type, json),
            Cardinality::Repeated => match json {
                Json::Array(items) => match decode_items(schema, field.field_type, items) {
                    Ok(values) => Ok(Value::List(values)),
                    Err(failure) => Err(failure),
                },
                _ => Err(DecodeError::TypeMismatch),
            },
            Cardinality::Mapped => match json {
                Json::Object(members) => match decode_entries(schema, field.field_type, members) {
                    Ok(entries) => Ok(Value::Entries(entries)),
                    Err(failure) => Err(failure),
                },
                _ => Err(DecodeError::TypeMismatch),
            },
        },
    }
}

/// Reads the slots of a message from the members of an object.
fn decode_fields(schema: &Schema, fields: &Vec<FieldDescriptor>, members: &Vec<(String, Json)>) -> (decoded:
    Result<Vec<Value>, DecodeError>)
    ensures
        values_result_view(decoded) == decoded_members(
            *schema,
            fields@,
            members_view(members@),
            members@.len(),
        ),
    decreases members, 0nat,
{
    let mut slots = default_values(fields);
    let mut i: usize = 0;
    while i < members.len()
        invariant
            i <= members.len(),
            slots@.len() == fields@.len(),
            decoded_members(*schema, fields@, members_view(members@), i as nat) == Ok::<
                Seq<ValueView>,
                DecodeError,
            >(values_view(slots@)),
        decreases members.len() - i,
    {
        match find_field(fields, &members[i].0) {
            None => {},
            Some(f) => match decode_slot(schema, &fields[f], &members[i].1) {
                Err(failure) => {
                    proof {
                        lemma_members_failure_sticks(
                            *schema,
                            fields@,
                            members_view(members@),
                            (i + 1) as nat,
                            members@.len(),
                        );
                    }
                    return Err(failure);
                },
                Ok(value) => {
                    assign_slot(fields, &mut slots, f, value);
                },
            },
        }
        i = i + 1;
    }
    Ok(slots)
}

/// Reads a message of type number `m` from `json`. A key that names no field
/// is passed over; a field that no key names keeps its default.
pub fn decode_message(schema: &Schema, m: usize, json: &Json) -> (decoded: Result<
    Value,
    DecodeError,
>)
    ensures
        value_result_view(decoded) == decoded_message(*schema, m, json@),
{
    decode_value(schema, FieldType::Message(m), json)
}

} // verus!
