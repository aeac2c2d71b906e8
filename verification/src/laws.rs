//! What holds of the JSON mapping of messages for every schema and value.

use vstd::prelude::*;
use crate::decimal::lemma_parse_decimal;
use crate::descriptor::{answers_to, Cardinality, FieldDescriptor, FieldType, Message, Schema};
use crate::enum_mapping::{has_name, lemma_enum_round_trip};
use crate::error::DecodeError;
use crate::json::JsonView;
use crate::message_mapping::{
    assigned, decoded_entries, decoded_items, decoded_members, decoded_message, decoded_single,
    decoded_slot, default_slot, default_slots, encoded_entries, encoded_items, encoded_members,
    encoded_message, encoded_value, omitted,
};
use crate::search::{first_match, lemma_first_match, lemma_first_match_is};
use crate::value::ValueView;

verus! {

/// Whether `value` is one value of type `field_type` that can be read back
/// once written: of the kind that the type names, with a declared
/// discriminant where it is an enum, and with slots that its fields can hold
/// where it is a message.
pub open spec fn conforms(schema: Schema, field_type: FieldType, value: ValueView) -> bool
    decreases value, 0nat,
{
    match field_type {
        FieldType::Bool => value is Bool,
        FieldType::Int32 => value is Int32,
        FieldType::Int64 => value is Int64,
        FieldType::Uint32 => value is Uint32,
        FieldType::Uint64 => value is Uint64,
        FieldType::String => value is String,
        FieldType::Enum(e) => {
            &&& e < schema.enums@.len()
            &&& value matches ValueView::Enum(n)
            &&& schema.enums@[e as int].declares(n as int)
        },
        FieldType::Message(m) => {
            &&& m < schema.messages@.len()
            &&& value matches ValueView::Message(slots)
            &&& slots.len() == schema.messages@[m as int].fields@.len()
            &&& forall|i: int|
                0 <= i < slots.len() ==> slot_conforms(
                    schema,
                    schema.messages@[m as int].fields@[i],
                    #[trigger] slots[i],
                )
            &&& one_arm_each(schema.messages@[m as int].fields@, slots)
        },
    }
}

/// At most one member of each oneof group is set.
pub open spec fn one_arm_each(fields: Seq<FieldDescriptor>, slots: Seq<ValueView>) -> bool {
    forall|i: int, j: int|
        0 <= i < slots.len() && 0 <= j < slots.len() && i != j && fields[i].oneof is Some
            && fields[i].oneof == fields[j].oneof ==> #[trigger] slots[i] is Unset
            || #[trigger] slots[j] is Unset
}

/// Whether `value` is what the field `field` can hold: one value of its type,
/// a list or a table of such values, the default of the field, or nothing
/// where nothing is the default.
pub open spec fn slot_conforms(schema: Schema, field: FieldDescriptor, value: ValueView) -> bool
    decreases value, 1nat,
{
    match field.cardinality {
        Cardinality::Singular => if omitted(field, value) {
            value is Unset ==> default_slot(field) is Unset
        } else {
            conforms(schema, field.field_type, value)
        },
        Cardinality::Repeated => {
            &&& value matches ValueView::List(items)
            &&& forall|i: int|
                0 <= i < items.len() ==> conforms(schema, field.field_type, #[trigger] items[i])
        },
        Cardinality::Mapped => {
            &&& value matches ValueView::Entries(entries)
            &&& forall|i: int|
                0 <= i < entries.len() ==> conforms(
                    schema,
                    field.field_type,
                    (#[trigger] entries[i]).1,
                )
        },
    }
}

/// The slots of a message of which the first `n` hold what `slots` holds and
/// the others their defaults.
pub open spec fn first_read(fields: Seq<FieldDescriptor>, slots: Seq<ValueView>, n: nat) -> Seq<
    ValueView,
> {
    Seq::new(
        fields.len(),
        |i: int|
            if i < n {
                slots[i]
            } else {
                default_slot(fields[i])
            },
    )
}

/// Both names of a field lead to it: its canonical name and its schema
/// name.
pub proof fn lemma_both_names_accepted(message: Message, i: int)
    requires
        message.wf(),
        0 <= i < message.fields@.len(),
    ensures
        message.field_index(message.fields@[i].json_name@) == Some(i),
        message.field_index(message.fields@[i].name@) == Some(i),
{
    let field = message.fields@[i];
    assert(answers_to(field.json_name@)(field));
    assert(answers_to(field.name@)(field));
    assert forall|j: int| 0 <= j < i implies !answers_to(field.json_name@)(message.fields@[j])
        && !answers_to(field.name@)(message.fields@[j]) by {
        assert(message.fields@[i].json_name@ != message.fields@[j].json_name@);
        assert(message.fields@[j].json_name@ != message.fields@[i].name@);
        assert(message.fields@[i].json_name@ != message.fields@[j].name@);
        assert(message.fields@[i].name@ != message.fields@[j].name@);
    }
    lemma_first_match_is(message.fields@, answers_to(field.json_name@), i);
    lemma_first_match_is(message.fields@, answers_to(field.name@), i);
}

/// What the first `k` members give does not depend on the members after them.
proof fn lemma_members_prefix(
    schema: Schema,
    fields: Seq<FieldDescriptor>,
    a: Seq<(Seq<char>, JsonView)>,
    b: Seq<(Seq<char>, JsonView)>,
    k: nat,
)
    requires
        k <= a.len(),
        k <= b.len(),
        forall|i: int| 0 <= i < k ==> a[i] == b[i],
    ensures
        decoded_members(schema, fields, a, k) == decoded_members(schema, fields, b, k),
    decreases k,
{
    if k > 0 {
        lemma_members_prefix(schema, fields, a, b, (k - 1) as nat);
    }
}

/// The elements of a repeated field survive being written and read back.
proof fn lemma_round_trip_items(
    schema: Schema,
    field_type: FieldType,
    items: Seq<ValueView>,
    n: nat,
)
    requires
        schema.wf(),
        n <= items.len(),
        forall|i: int| 0 <= i < items.len() ==> conforms(schema, field_type, #[trigger] items[i]),
    ensures
        decoded_items(schema, field_type, encoded_items(schema, field_type, items), n) == Ok::<
            Seq<ValueView>,
            DecodeError,
        >(items.take(n as int)),
    decreases items, n,
{
    if n == 0 {
        assert(items.take(0) =~= Seq::empty());
    } else {
        lemma_round_trip_items(schema, field_type, items, (n - 1) as nat);
        lemma_round_trip_value(schema, field_type, items[n - 1]);
        assert(items.take(n as int) =~= items.take(n - 1).push(items[n - 1]));
    }
}

/// The entries of a map field survive being written and read back.
proof fn lemma_round_trip_entries(
    schema: Schema,
    field_type: FieldType,
    entries: Seq<(Seq<char>, ValueView)>,
    n: nat,
)
    requires
        schema.wf(),
        n <= entries.len(),
        forall|i: int|
            0 <= i < entries.len() ==> conforms(schema, field_type, (#[trigger] entries[i]).1),
    ensures
        decoded_entries(schema, field_type, encoded_entries(schema, field_type, entries), n)
            == Ok::<Seq<(Seq<char>, ValueView)>, DecodeError>(entries.take(n as int)),
    decreases entries, n,
{
    if n == 0 {
        assert(entries.take(0) =~= Seq::empty());
    } else {
        lemma_round_trip_entries(schema, field_type, entries, (n - 1) as nat);
        lemma_round_trip_value(schema, field_type, entries[n - 1].1);
        assert(entries.take(n as int) =~= entries.take(n - 1).push(entries[n - 1]));
    }
}

/// What a field holds, if it is written at all, is read back from what was
/// written.
proof fn lemma_round_trip_slot(schema: Schema, field: FieldDescriptor, value: ValueView)
    requires
        schema.wf(),
        slot_conforms(schema, field, value),
        !omitted(field, value),
    ensures
        decoded_slot(schema, field, encoded_value(schema, field.field_type, value)) == Ok::<
            ValueView,
            DecodeError,
        >(value),
    decreases value, 1nat,
{
    match field.cardinality {
        Cardinality::Singular => {
            lemma_round_trip_value(schema, field.field_type, value);
        },
        Cardinality::Repeated => {
            let items = value->List_0;
            lemma_round_trip_items(schema, field.field_type, items, items.len());
            assert(items.take(items.len() as int) =~= items);
        },
        Cardinality::Mapped => {
            let entries = value->Entries_0;
            lemma_round_trip_entries(schema, field.field_type, entries, entries.len());
            assert(entries.take(entries.len() as int) =~= entries);
        },
    }
}

/// Reading what was written for the first `n` fields gives those fields
/// their values back and leaves the others at their defaults.
proof fn lemma_round_trip_members(schema: Schema, m: usize, slots: Seq<ValueView>, n: nat)
    requires
        schema.wf(),
        conforms(schema, FieldType::Message(m), ValueView::Message(slots)),
        n <= slots.len(),
    ensures
        ({
            let fields = schema.messages@[m as int].fields@;
            let written = encoded_members(schema, fields, slots, n);
            decoded_members(schema, fields, written, written.len()) == Ok::<
                Seq<ValueView>,
                DecodeError,
            >(first_read(fields, slots, n))
        }),
    decreases slots, n,
{
    let message = schema.messages@[m as int];
    let fields = message.fields@;
    assert(message.wf());
    if n == 0 {
        assert(first_read(fields, slots, 0) =~= default_slots(fields));
    } else {
        let i = n - 1;
        let before = encoded_members(schema, fields, slots, i as nat);
        let written = encoded_members(schema, fields, slots, n);
        lemma_round_trip_members(schema, m, slots, i as nat);
        assert(slot_conforms(schema, fields[i], slots[i]));
        if omitted(fields[i], slots[i]) {
            assert(first_read(fields, slots, n) =~= first_read(fields, slots, i as nat));
        } else {
            let json = encoded_value(schema, fields[i].field_type, slots[i]);
            assert(written == before.push((fields[i].json_name@, json)));
            lemma_members_prefix(schema, fields, written, before, before.len());
            lemma_both_names_accepted(message, i);
            lemma_round_trip_slot(schema, fields[i], slots[i]);
            let earlier = first_read(fields, slots, i as nat);
            assert forall|k: int| 0 <= k < fields.len() implies assigned(
                fields,
                earlier,
                i,
                slots[i],
            )[k] == first_read(fields, slots, n)[k] by {
                if k != i && fields[i].oneof is Some && fields[k].oneof == fields[i].oneof {
                    if k < n {
                        assert(slots[i] is Unset || slots[k] is Unset);
                    } else {
                        assert(fields[k].oneof is Some);
                    }
                }
            }
            assert(assigned(fields, earlier, i, slots[i]) =~= first_read(fields, slots, n));
        }
    }
}

/// Round trip of one value: a value of the field's type, written as JSON and
/// read back, is the value that was written.
pub proof fn lemma_round_trip_value(schema: Schema, field_type: FieldType, value: ValueView)
    requires
        schema.wf(),
        conforms(schema, field_type, value),
    ensures
        decoded_single(schema, field_type, encoded_value(schema, field_type, value)) == Ok::<
            ValueView,
            DecodeError,
        >(value),
    decreases value, 0nat,
{
    match value {
        ValueView::Int64(n) => {
            lemma_parse_decimal(n as int);
        },
        ValueView::Uint64(n) => {
            lemma_parse_decimal(n as int);
        },
        ValueView::Enum(n) => {
            let e = field_type->Enum_0;
            assert(schema.enums@[e as int].wf());
            lemma_enum_round_trip(schema.enums@[e as int], n);
        },
        ValueView::Message(slots) => {
            let m = field_type->Message_0;
            let fields = schema.messages@[m as int].fields@;
            lemma_round_trip_members(schema, m, slots, slots.len());
            assert(first_read(fields, slots, slots.len()) =~= slots);
        },
        _ => {},
    }
}

/// Round trip of a message: a well-typed message, written as a JSON object
/// and read back, is the message that was written. The fields that were left
/// out because they hold their default are restored to it.
pub proof fn lemma_round_trip_message(schema: Schema, m: usize, value: ValueView)
    requires
        schema.wf(),
        conforms(schema, FieldType::Message(m), value),
    ensures
        decoded_message(schema, m, encoded_message(schema, m, value)) == Ok::<
            ValueView,
            DecodeError,
        >(value),
{
    lemma_round_trip_value(schema, FieldType::Message(m), value);
}

/// Every member that is written is the member of a field that is not
/// omitted: it stands under that field's canonical name and holds that
/// field's value as JSON.
proof fn lemma_member_origin(
    schema: Schema,
    fields: Seq<FieldDescriptor>,
    slots: Seq<ValueView>,
    n: nat,
    k: int,
) -> (j: int)
    requires
        0 <= k < encoded_members(schema, fields, slots, n).len(),
    ensures
        0 <= j < n,
        j < fields.len(),
        j < slots.len(),
        !omitted(fields[j], slots[j]),
        encoded_members(schema, fields, slots, n)[k] == (
            fields[j].json_name@,
            encoded_value(schema, fields[j].field_type, slots[j]),
        ),
    decreases n,
{
    let before = encoded_members(schema, fields, slots, (n - 1) as nat);
    if k < before.len() {
        lemma_member_origin(schema, fields, slots, (n - 1) as nat, k)
    } else {
        n - 1
    }
}

/// An omitted field is never written: a field that is unset, or that elides
/// its default and holds it, is the key of no member of the written object.
pub proof fn lemma_omitted_field_absent(schema: Schema, m: usize, slots: Seq<ValueView>, i: int)
    requires
        m < schema.messages@.len(),
        schema.messages@[m as int].wf(),
        0 <= i < schema.messages@[m as int].fields@.len(),
        i < slots.len() ==> omitted(schema.messages@[m as int].fields@[i], slots[i]),
    ensures
        ({
            let fields = schema.messages@[m as int].fields@;
            let written = encoded_members(schema, fields, slots, fields.len());
            forall|k: int| 0 <= k < written.len() ==> (#[trigger] written[k]).0 != fields[i].json_name@
        }),
{
    let fields = schema.messages@[m as int].fields@;
    let written = encoded_members(schema, fields, slots, fields.len());
    assert forall|k: int| 0 <= k < written.len() implies (#[trigger] written[k]).0
        != fields[i].json_name@ by {
        let j = lemma_member_origin(schema, fields, slots, fields.len(), k);
        if j != i {
            assert(fields[i].json_name@ != fields[j].json_name@);
        }
    }
}

/// Default elision: the key of a field that elides its default and holds it
/// is the key of no member of the written object.
pub proof fn lemma_default_elided(schema: Schema, m: usize, slots: Seq<ValueView>, i: int)
    requires
        m < schema.messages@.len(),
        schema.messages@[m as int].wf(),
        0 <= i < schema.messages@[m as int].fields@.len(),
        i < slots.len(),
        schema.messages@[m as int].fields@[i].elide_default,
        slots[i] == default_slot(schema.messages@[m as int].fields@[i]),
    ensures
        ({
            let fields = schema.messages@[m as int].fields@;
            let written = encoded_members(schema, fields, slots, fields.len());
            forall|k: int| 0 <= k < written.len() ==> (#[trigger] written[k]).0 != fields[i].json_name@
        }),
{
    lemma_omitted_field_absent(schema, m, slots, i);
}

/// A field that is not omitted is written: some member of the written object
/// stands under its canonical name and holds its value as JSON.
pub proof fn lemma_present_field_written(
    schema: Schema,
    fields: Seq<FieldDescriptor>,
    slots: Seq<ValueView>,
    n: nat,
    i: int,
) -> (k: int)
    requires
        0 <= i < n,
        i < fields.len(),
        i < slots.len(),
        !omitted(fields[i], slots[i]),
    ensures
        0 <= k < encoded_members(schema, fields, slots, n).len(),
        encoded_members(schema, fields, slots, n)[k] == (
            fields[i].json_name@,
            encoded_value(schema, fields[i].field_type, slots[i]),
        ),
    decreases n,
{
    let before = encoded_members(schema, fields, slots, (n - 1) as nat);
    if i == n - 1 {
        before.len() as int
    } else {
        let k = lemma_present_field_written(schema, fields, slots, (n - 1) as nat, i);
        k
    }
}

/// Members are written in declaration order: of two members, the earlier one
/// belongs to the field that was declared first.
pub proof fn lemma_declaration_order(
    schema: Schema,
    fields: Seq<FieldDescriptor>,
    slots: Seq<ValueView>,
    n: nat,
    k1: int,
    k2: int,
) -> (origin: (int, int))
    requires
        0 <= k1 < k2 < encoded_members(schema, fields, slots, n).len(),
    ensures
        0 <= origin.0 < origin.1 < n,
        origin.1 < fields.len(),
        encoded_members(schema, fields, slots, n)[k1].0 == fields[origin.0].json_name@,
        encoded_members(schema, fields, slots, n)[k2].0 == fields[origin.1].json_name@,
    decreases n,
{
    let before = encoded_members(schema, fields, slots, (n - 1) as nat);
    if k2 < before.len() {
        lemma_declaration_order(schema, fields, slots, (n - 1) as nat, k1, k2)
    } else {
        let j1 = lemma_member_origin(schema, fields, slots, (n - 1) as nat, k1);
        (j1, n - 1)
    }
}

/// Two objects whose members agree in their values, and in the fields that
/// their keys name, are read alike.
proof fn lemma_same_fields_same_reading(
    schema: Schema,
    fields: Seq<FieldDescriptor>,
    a: Seq<(Seq<char>, JsonView)>,
    b: Seq<(Seq<char>, JsonView)>,
    n: nat,
)
    requires
        a.len() == b.len(),
        forall|k: int|
            0 <= k < a.len() ==> (#[trigger] a[k]).1 == b[k].1 && first_match(
                fields,
                answers_to(a[k].0),
            ) == first_match(fields, answers_to(b[k].0)),
    ensures
        decoded_members(schema, fields, a, n) == decoded_members(schema, fields, b, n),
    decreases n,
{
    if n > 0 {
        lemma_same_fields_same_reading(schema, fields, a, b, (n - 1) as nat);
        if n <= a.len() {
            assert(a[n - 1].1 == b[n - 1].1);
        }
    }
}

/// Either name will do: an object reads the same whether a member stands
/// under the canonical name of its field or under its schema name.
pub proof fn lemma_either_name_reads_alike(
    schema: Schema,
    m: usize,
    members: Seq<(Seq<char>, JsonView)>,
    k: int,
    i: int,
)
    requires
        m < schema.messages@.len(),
        schema.messages@[m as int].wf(),
        0 <= k < members.len(),
        0 <= i < schema.messages@[m as int].fields@.len(),
        members[k].0 == schema.messages@[m as int].fields@[i].json_name@,
    ensures
        decoded_message(schema, m, JsonView::Object(members)) == decoded_message(
            schema,
            m,
            JsonView::Object(
                members.update(k, (schema.messages@[m as int].fields@[i].name@, members[k].1)),
            ),
        ),
{
    let message = schema.messages@[m as int];
    let renamed = members.update(k, (message.fields@[i].name@, members[k].1));
    lemma_both_names_accepted(message, i);
    assert forall|j: int| 0 <= j < members.len() implies (#[trigger] members[j]).1 == renamed[j].1
        && first_match(message.fields@, answers_to(members[j].0)) == first_match(
        message.fields@,
        answers_to(renamed[j].0),
    ) by {
        if j != k {
            assert(renamed[j] == members[j]);
        }
    }
    lemma_same_fields_same_reading(schema, message.fields@, members, renamed, members.len());
}

/// Taking out a member whose key names no field changes nothing of what the
/// members before and after it give.
proof fn lemma_unknown_member_skipped(
    schema: Schema,
    fields: Seq<FieldDescriptor>,
    members: Seq<(Seq<char>, JsonView)>,
    k: int,
    n: nat,
)
    requires
        0 <= k < members.len(),
        first_match(fields, answers_to(members[k].0)) is None,
        k < n <= members.len(),
    ensures
        decoded_members(schema, fields, members, n) == decoded_members(
            schema,
            fields,
            members.remove(k),
            (n - 1) as nat,
        ),
    decreases n,
{
    let rest = members.remove(k);
    if n == k + 1 {
        lemma_members_prefix(schema, fields, members, rest, k as nat);
    } else {
        lemma_unknown_member_skipped(schema, fields, members, k, (n - 1) as nat);
        assert(rest[n - 2] == members[n - 1]);
    }
}

/// Unknown keys are ignored: an object reads the same with and without a
/// member whose key is neither name of any field.
pub proof fn lemma_unknown_key_ignored(
    schema: Schema,
    m: usize,
    members: Seq<(Seq<char>, JsonView)>,
    k: int,
)
    requires
        m < schema.messages@.len(),
        0 <= k < members.len(),
        schema.messages@[m as int].field_index(members[k].0) is None,
    ensures
        decoded_message(schema, m, JsonView::Object(members)) == decoded_message(
            schema,
            m,
            JsonView::Object(members.remove(k)),
        ),
{
    lemma_unknown_member_skipped(
        schema,
        schema.messages@[m as int].fields@,
        members,
        k,
        members.len(),
    );
}

/// The elements that are read for a repeated field are values of its type.
proof fn lemma_decoded_items_conform(
    schema: Schema,
    field_type: FieldType,
    items: Seq<JsonView>,
    n: nat,
)
    requires
        schema.wf(),
        decoded_items(schema, field_type, items, n) is Ok,
    ensures
        forall|i: int|
            0 <= i < decoded_items(schema, field_type, items, n)->Ok_0.len() ==> conforms(
                schema,
                field_type,
                #[trigger] decoded_items(schema, field_type, items, n)->Ok_0[i],
            ),
    decreases items, n,
{
    if n > 0 {
        lemma_decoded_items_conform(schema, field_type, items, (n - 1) as nat);
        if n <= items.len() {
            lemma_decoded_conforms(schema, field_type, items[n - 1]);
        }
    }
}

/// The entries that are read for a map field hold values of its type.
proof fn lemma_decoded_entries_conform(
    schema: Schema,
    field_type: FieldType,
    members: Seq<(Seq<char>, JsonView)>,
    n: nat,
)
    requires
        schema.wf(),
        decoded_entries(schema, field_type, members, n) is Ok,
    ensures
        forall|i: int|
            0 <= i < decoded_entries(schema, field_type, members, n)->Ok_0.len() ==> conforms(
                schema,
                field_type,
                (#[trigger] decoded_entries(schema, field_type, members, n)->Ok_0[i]).1,
            ),
    decreases members, n,
{
    if n > 0 {
        lemma_decoded_entries_conform(schema, field_type, members, (n - 1) as nat);
        if n <= members.len() {
            lemma_decoded_conforms(schema, field_type, members[n - 1].1);
        }
    }
}

/// What is read for a field is what the field can hold.
proof fn lemma_decoded_slot_conforms(schema: Schema, field: FieldDescriptor, json: JsonView)
    requires
        schema.wf(),
        decoded_slot(schema, field, json) is Ok,
    ensures
        slot_conforms(schema, field, decoded_slot(schema, field, json)->Ok_0),
    decreases json, 1nat,
{
    match json {
        JsonView::Null => {},
        _ => match field.cardinality {
            Cardinality::Singular => {
                lemma_decoded_conforms(schema, field.field_type, json);
            },
            Cardinality::Repeated => {
                let items = json->Array_0;
                lemma_decoded_items_conform(schema, field.field_type, items, items.len());
            },
            Cardinality::Mapped => {
                let members = json->Object_0;
                lemma_decoded_entries_conform(schema, field.field_type, members, members.len());
            },
        },
    }
}

/// The slots that are read from the first `n` members are slots that the
/// fields can hold, with at most one member of each oneof group set.
proof fn lemma_decoded_members_conform(
    schema: Schema,
    m: usize,
    members: Seq<(Seq<char>, JsonView)>,
    n: nat,
)
    requires
        schema.wf(),
        m < schema.messages@.len(),
        decoded_members(schema, schema.messages@[m as int].fields@, members, n) is Ok,
    ensures
        ({
            let fields = schema.messages@[m as int].fields@;
            let slots = decoded_members(schema, fields, members, n)->Ok_0;
            &&& slots.len() == fields.len()
            &&& forall|i: int|
                0 <= i < slots.len() ==> slot_conforms(schema, fields[i], #[trigger] slots[i])
            &&& one_arm_each(fields, slots)
        }),
    decreases members, n,
{
    let message = schema.messages@[m as int];
    let fields = message.fields@;
    assert(message.wf());
    if n == 0 {
    } else if n > members.len() {
        lemma_decoded_members_conform(schema, m, members, (n - 1) as nat);
    } else {
        lemma_decoded_members_conform(schema, m, members, (n - 1) as nat);
        let before = decoded_members(schema, fields, members, (n - 1) as nat)->Ok_0;
        let key = members[n - 1].0;
        lemma_first_match(fields, answers_to(key));
        match first_match(fields, answers_to(key)) {
            None => {},
            Some(f) => {
                lemma_decoded_slot_conforms(schema, fields[f], members[n - 1].1);
                let value = decoded_slot(schema, fields[f], members[n - 1].1)->Ok_0;
                let slots = assigned(fields, before, f, value);
                assert forall|i: int| 0 <= i < slots.len() implies slot_conforms(
                    schema,
                    fields[i],
                    #[trigger] slots[i],
                ) by {
                    if i != f && slots[i] != before[i] {
                        assert(fields[i].oneof is Some);
                    } else if i != f {
                        assert(slot_conforms(schema, fields[i], before[i]));
                    }
                }
                assert forall|i: int, j: int|
                    0 <= i < slots.len() && 0 <= j < slots.len() && i != j && fields[i].oneof
                        is Some && fields[i].oneof == fields[j].oneof implies #[trigger] slots[i]
                    is Unset || #[trigger] slots[j] is Unset by {
                    if i != f && j != f {
                        assert(before[i] is Unset || before[j] is Unset);
                    }
                }
            },
        }
    }
}

/// What is read is well typed: a value that a JSON value gives to a type is a
/// value of that type, with declared discriminants in its enums and, in each
/// of its messages, at most one member of each oneof group set.
pub proof fn lemma_decoded_conforms(schema: Schema, field_type: FieldType, json: JsonView)
    requires
        schema.wf(),
        decoded_single(schema, field_type, json) is Ok,
    ensures
        conforms(schema, field_type, decoded_single(schema, field_type, json)->Ok_0),
    decreases json, 0nat,
{
    match field_type {
        FieldType::Enum(e) => {
            let descriptor = schema.enums@[e as int];
            match json {
                JsonView::String(s) => {
                    lemma_first_match(descriptor.variants@, has_name(s));
                },
                _ => {},
            }
        },
        FieldType::Message(m) => {
            let members = json->Object_0;
            lemma_decoded_members_conform(schema, m, members, members.len());
        },
        _ => {},
    }
}

/// Reading is stable: what was read from a JSON value is read again from what
/// is written for it.
pub proof fn lemma_read_written_read(schema: Schema, m: usize, json: JsonView)
    requires
        schema.wf(),
        decoded_message(schema, m, json) is Ok,
    ensures
        decoded_message(
            schema,
            m,
            encoded_message(schema, m, decoded_message(schema, m, json)->Ok_0),
        ) == decoded_message(schema, m, json),
{
    lemma_decoded_conforms(schema, FieldType::Message(m), json);
    lemma_round_trip_message(schema, m, decoded_message(schema, m, json)->Ok_0);
}

} // verus!
