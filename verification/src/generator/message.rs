//! The code generated for a message: the table of the keys it accepts, the
//! `Serialize` impl that writes the fields that are present, and the
//! `Deserialize` impl that reads them back under either of their names.
//!
//! The generated code is written against a struct that has one field for each
//! declared field, named as the schema spells it. A singular field whose
//! default stands for absence is held bare; any other singular field is held
//! in an `Option`; a repeated field in a `Vec`; a map field in a `BTreeMap`
//! keyed by `String`. An enum is held as its `i32` discriminant. The code
//! names every item that it uses by its full path and needs no import.

use vstd::prelude::*;
use crate::descriptor::{answers_to, Cardinality, FieldDescriptor, FieldType, Message};
use crate::search::lemma_first_match;
use crate::generator::{
    deserialize_end_text, deserialize_start_text, fields_array_text, serialize_end_text,
    serialize_start_text, wkt_message_serde_text, write_deserialize_end, write_deserialize_start,
    write_fields_array, write_serialize_end, write_serialize_start, write_wkt_message_serde,
};
use crate::laws::conforms;
use crate::message_mapping::{default_slot, encoded_value};
use crate::json::JsonView;
use crate::value::ValueView;
use crate::descriptor::Schema;
use crate::indent::{indent_text, Indent};
use crate::text::{first_line, join3, line, push_line, push_line3, strings_view};

verus! {

/// How the generated struct holds a field, which decides how its presence is
/// tested.
#[derive(Debug, Clone, Copy, PartialEq, Eq, Structural)]
pub enum Presence {
    /// Held bare: present when it differs from the default of its type.
    Implicit,
    /// Held in an `Option`: present when it is `Some`.
    Explicit,
    /// Held in a `Vec`.
    Repeated,
    /// Held in a `BTreeMap`.
    Mapped,
}

/// How one value of a field goes to JSON and back.
#[derive(Debug, Clone, Copy, PartialEq, Eq, Structural)]
pub enum Conversion {
    /// As serde writes and reads it.
    Plain,
    /// A 64-bit integer: written as a decimal string, read from a string or a
    /// number.
    Wide,
    /// A discriminant of the enum with this number: written and read through
    /// the procedures generated for the enum.
    Named(usize),
}

/// How the generated struct holds `field`.
pub open spec fn presence_of(field: FieldDescriptor) -> Presence {
    match field.cardinality {
        Cardinality::Repeated => Presence::Repeated,
        Cardinality::Mapped => Presence::Mapped,
        Cardinality::Singular => if field.elide_default && !(field.field_type is Message) {
            Presence::Implicit
        } else {
            Presence::Explicit
        },
    }
}

/// How one value of type `field_type` goes to JSON and back.
pub open spec fn conversion_of(field_type: FieldType) -> Conversion {
    match field_type {
        FieldType::Int64 => Conversion::Wide,
        FieldType::Uint64 => Conversion::Wide,
        FieldType::Enum(e) => Conversion::Named(e),
        _ => Conversion::Plain,
    }
}

/// Whether the generated name of every enum that a field of `fields` refers
/// to is among `enum_types`.
pub open spec fn enums_named(fields: Seq<FieldDescriptor>, enum_types: Seq<Seq<char>>) -> bool {
    forall|i: int|
        0 <= i < fields.len() ==> match (#[trigger] fields[i]).field_type {
            FieldType::Enum(e) => e < enum_types.len(),
            _ => true,
        }
}

/// The expression that names the field in the generated struct.
pub open spec fn subject_text(field: FieldDescriptor) -> Seq<char> {
    "self."@ + field.name@
}

/// The condition on which the field is written.
pub open spec fn serialize_test_text(field: FieldDescriptor) -> Seq<char> {
    match presence_of(field) {
        Presence::Implicit => match field.field_type {
            FieldType::Bool => subject_text(field),
            FieldType::String => "!"@ + subject_text(field) + ".is_empty()"@,
            _ => subject_text(field) + " != 0"@,
        },
        Presence::Explicit => "let Some(v) = "@ + subject_text(field) + ".as_ref()"@,
        _ => if field.elide_default {
            "!"@ + subject_text(field) + ".is_empty()"@
        } else {
            "true"@
        },
    }
}

/// The JSON form of the value that `v` refers to, where it is not written as
/// serde writes it.
pub open spec fn element_text(conversion: Conversion, enum_types: Seq<Seq<char>>) -> Seq<char> {
    match conversion {
        Conversion::Named(e) => enum_types[e as int] + "::json_name(*v)"@,
        _ => "v.to_string()"@,
    }
}

/// The expression whose value is written for the field.
pub open spec fn serialize_expr_text(field: FieldDescriptor, enum_types: Seq<Seq<char>>) -> Seq<
    char,
> {
    let conversion = conversion_of(field.field_type);
    match conversion {
        Conversion::Plain => match presence_of(field) {
            Presence::Explicit => "v"@,
            _ => "&"@ + subject_text(field),
        },
        _ => match presence_of(field) {
            Presence::Implicit => match conversion {
                Conversion::Named(e) => "&"@ + enum_types[e as int] + "::json_name("@
                    + subject_text(field) + ")"@,
                _ => "&"@ + subject_text(field) + ".to_string()"@,
            },
            Presence::Explicit => "&"@ + element_text(conversion, enum_types),
            Presence::Repeated => "&"@ + subject_text(field) + ".iter().map(|v| "@ + element_text(
                conversion,
                enum_types,
            ) + ").collect::<Vec<_>>()"@,
            Presence::Mapped => "&"@ + subject_text(field) + ".iter().map(|(k, v)| (k, "@
                + element_text(conversion, enum_types)
                + ")).collect::<std::collections::BTreeMap<_, _>>()"@,
        },
    }
}

/// What is generated to write one field: the test of its presence and the
/// entry under its canonical name.
pub open spec fn serialize_field_text(field: FieldDescriptor, enum_types: Seq<Seq<char>>) -> Seq<
    char,
> {
    line(2, "if "@ + serialize_test_text(field) + " {"@) + line(
        3,
        "serde::ser::SerializeMap::serialize_entry(&mut map, \""@ + field.json_name@ + "\", "@
            + serialize_expr_text(
            field,
            enum_types,
        ) + ")?;"@,
    ) + line(2, "}"@)
}

/// What is generated to write the first `n` fields, in declaration order.
pub open spec fn serialize_fields_text(
    fields: Seq<FieldDescriptor>,
    enum_types: Seq<Seq<char>>,
    n: nat,
) -> Seq<char>
    decreases n,
{
    if n == 0 {
        Seq::empty()
    } else {
        serialize_fields_text(fields, enum_types, (n - 1) as nat) + serialize_field_text(
            fields[n - 1],
            enum_types,
        )
    }
}

/// The `Serialize` impl of the message: an object with one entry for each
/// field that is present, in declaration order.
pub open spec fn message_serialize_text(
    message: Message,
    rust_type: Seq<char>,
    enum_types: Seq<Seq<char>>,
) -> Seq<char> {
    serialize_start_text(0, rust_type) + line(
        2,
        "let mut map = serializer.serialize_map(None)?;"@,
    ) + serialize_fields_text(message.fields@, enum_types, message.fields@.len()) + line(
        2,
        "serde::ser::SerializeMap::end(map)"@,
    ) + serialize_end_text(0)
}

/// The keys that the first `n` fields are read from: for each field its
/// canonical name, then its schema name where the two differ.
pub open spec fn accepted_keys(fields: Seq<FieldDescriptor>, n: nat) -> Seq<Seq<char>>
    decreases n,
{
    if n == 0 {
        Seq::empty()
    } else {
        let before = accepted_keys(fields, (n - 1) as nat).push(fields[n - 1].json_name@);
        if fields[n - 1].name@ == fields[n - 1].json_name@ {
            before
        } else {
            before.push(fields[n - 1].name@)
        }
    }
}

/// The type that one value of the field is read as.
pub open spec fn read_element_text(conversion: Conversion, enum_types: Seq<Seq<char>>) -> Seq<
    char,
> {
    match conversion {
        Conversion::Plain => "_"@,
        Conversion::Wide => "Wide<_>"@,
        Conversion::Named(e) => enum_types[e as int],
    }
}

/// The type that the whole field is read as: one value, or a container of
/// values.
pub open spec fn read_type_text(
    presence: Presence,
    conversion: Conversion,
    enum_types: Seq<Seq<char>>,
) -> Seq<char> {
    match presence {
        Presence::Repeated => "Vec<"@ + read_element_text(conversion, enum_types) + ">"@,
        Presence::Mapped => "std::collections::BTreeMap<String, "@ + read_element_text(
            conversion,
            enum_types,
        ) + ">"@,
        _ => read_element_text(conversion, enum_types),
    }
}

/// What turns the value that was read into the value that the struct holds.
pub open spec fn read_tail_text(presence: Presence, conversion: Conversion) -> Seq<char> {
    match presence {
        Presence::Implicit => match conversion {
            Conversion::Plain => ".unwrap_or_default()"@,
            Conversion::Wide => ".map(|x| x.0).unwrap_or_default()"@,
            Conversion::Named(_) => ".map(|x| x as i32).unwrap_or_default()"@,
        },
        Presence::Explicit => match conversion {
            Conversion::Plain => ""@,
            Conversion::Wide => ".map(|x| x.0)"@,
            Conversion::Named(_) => ".map(|x| x as i32)"@,
        },
        Presence::Repeated => match conversion {
            Conversion::Plain => ".unwrap_or_default()"@,
            Conversion::Wide => ".unwrap_or_default().into_iter().map(|x| x.0).collect()"@,
            Conversion::Named(_) => ".unwrap_or_default().into_iter().map(|x| x as i32).collect()"@,
        },
        Presence::Mapped => match conversion {
            Conversion::Plain => ".unwrap_or_default()"@,
            Conversion::Wide => ".unwrap_or_default().into_iter().map(|(k, v)| (k, v.0)).collect()"@,
            Conversion::Named(_) => ".unwrap_or_default().into_iter().map(|(k, v)| (k, v as i32)).collect()"@,
        },
    }
}

/// The statement that reads the field: `null` gives the default.
pub open spec fn read_statement_text(field: FieldDescriptor, enum_types: Seq<Seq<char>>) -> Seq<
    char,
> {
    "message."@ + field.name@ + " = map.next_value::<Option<"@ + read_type_text(
        presence_of(field),
        conversion_of(field.field_type),
        enum_types,
    ) + ">>()?"@ + read_tail_text(presence_of(field), conversion_of(field.field_type)) + ";"@
}

/// The pattern that matches the keys of the field: its canonical name, and
/// its schema name where the two differ.
pub open spec fn key_pattern_text(field: FieldDescriptor) -> Seq<char> {
    if field.name@ == field.json_name@ {
        "\""@ + field.json_name@ + "\""@
    } else {
        "\""@ + field.json_name@ + "\" | \""@ + field.name@ + "\""@
    }
}

/// The statements that unset, among the first `n` fields, the other members
/// of the oneof group of field number `i`.
pub open spec fn clear_arms_text(fields: Seq<FieldDescriptor>, i: int, n: nat) -> Seq<char>
    decreases n,
{
    if n == 0 {
        Seq::empty()
    } else {
        let before = clear_arms_text(fields, i, (n - 1) as nat);
        if n - 1 != i && fields[n - 1].oneof == fields[i].oneof {
            before + line(8, "message."@ + fields[n - 1].name@ + " = None;"@)
        } else {
            before
        }
    }
}

/// What follows the reading of a member of a oneof group: where it was set,
/// the other members of the group are unset. Nothing for any other field.
pub open spec fn exclusive_text(fields: Seq<FieldDescriptor>, i: int) -> Seq<char> {
    if fields[i].oneof is Some {
        line(7, "if message."@ + fields[i].name@ + ".is_some() {"@) + clear_arms_text(
            fields,
            i,
            fields.len(),
        ) + line(7, "}"@)
    } else {
        Seq::empty()
    }
}

/// The arm that reads field number `i`.
pub open spec fn deserialize_arm_text(
    fields: Seq<FieldDescriptor>,
    i: int,
    enum_types: Seq<Seq<char>>,
) -> Seq<char> {
    line(6, key_pattern_text(fields[i]) + " => {"@) + line(
        7,
        read_statement_text(fields[i], enum_types),
    ) + exclusive_text(fields, i) + line(6, "}"@)
}

/// The arms that read the first `n` fields, in declaration order.
pub open spec fn deserialize_arms_text(
    fields: Seq<FieldDescriptor>,
    enum_types: Seq<Seq<char>>,
    n: nat,
) -> Seq<char>
    decreases n,
{
    if n == 0 {
        Seq::empty()
    } else {
        deserialize_arms_text(fields, enum_types, (n - 1) as nat) + deserialize_arm_text(
            fields,
            n - 1,
            enum_types,
        )
    }
}

/// The visitor that reads the message from a JSON object: each member whose
/// key names a field is read into it, any other member is passed over.
pub open spec fn message_visitor_text(
    message: Message,
    rust_type: Seq<char>,
    enum_types: Seq<Seq<char>>,
) -> Seq<char> {
    line(2, "struct GeneratedVisitor;"@) + "\n"@ + line(
        2,
        "impl<'de> serde::de::Visitor<'de> for GeneratedVisitor {"@,
    ) + line(3, "type Value = "@ + rust_type + ";"@) + "\n"@ + line(
        3,
        "fn expecting(&self, formatter: &mut std::fmt::Formatter<'_>) -> std::fmt::Result {"@,
    ) + line(4, "formatter.write_str(\"struct "@ + message.path.full_name() + "\")"@) + line(
        3,
        "}"@,
    ) + "\n"@ + line(
        3,
        "fn visit_map<V>(self, mut map: V) -> std::result::Result<Self::Value, V::Error>"@,
    ) + line(3, "where"@) + line(4, "V: serde::de::MapAccess<'de>,"@) + line(3, "{"@) + line(
        4,
        "let mut message = "@ + rust_type + "::default();"@,
    ) + line(4, "while let Some(key) = map.next_key::<String>()? {"@) + line(
        5,
        "match key.as_str() {"@,
    ) + deserialize_arms_text(message.fields@, enum_types, message.fields@.len()) + line(
        6,
        "_ => {"@,
    ) + line(7, "map.next_value::<serde::de::IgnoredAny>()?;"@) + line(6, "}"@) + line(5, "}"@)
        + line(4, "}"@) + line(4, "Ok(message)"@) + line(3, "}"@) + line(2, "}"@)
}

/// Whether some field holds 64-bit integers.
pub open spec fn needs_wide(fields: Seq<FieldDescriptor>) -> bool {
    exists|i: int|
        0 <= i < fields.len() && conversion_of((#[trigger] fields[i]).field_type) is Wide
}

/// A method of the helper's visitor that takes a JSON number of the
/// signedness that `signature` and `unexpected` name, if the integer type
/// holds it.
pub open spec fn wide_visit_number_text(signature: Seq<char>, unexpected: Seq<char>) -> Seq<char> {
    line(5, signature) + line(5, "where"@) + line(6, "E: serde::de::Error,"@) + line(5, "{"@)
        + line(6, "T::try_from(v as i128)"@) + line(7, ".map(Wide)"@) + line(
        7,
        ".map_err(|_| serde::de::Error::invalid_value("@ + unexpected + ", &self))"@,
    ) + line(5, "}"@)
}

/// The visitor of the helper.
pub open spec fn wide_visitor_text() -> Seq<char> {
    line(4, "struct WideVisitor<T>(std::marker::PhantomData<T>);"@) + "\n"@ + line(
        4,
        "impl<'de, T: TryFrom<i128>> serde::de::Visitor<'de> for WideVisitor<T> {"@,
    ) + line(5, "type Value = Wide<T>;"@) + "\n"@ + line(
        5,
        "fn expecting(&self, formatter: &mut std::fmt::Formatter<'_>) -> std::fmt::Result {"@,
    ) + line(6, "formatter.write_str(\"an integer or a string that spells one\")"@) + line(
        5,
        "}"@,
    ) + "\n"@ + wide_visit_number_text(
        "fn visit_i64<E>(self, v: i64) -> std::result::Result<Self::Value, E>"@,
        "serde::de::Unexpected::Signed(v)"@,
    ) + "\n"@ + wide_visit_number_text(
        "fn visit_u64<E>(self, v: u64) -> std::result::Result<Self::Value, E>"@,
        "serde::de::Unexpected::Unsigned(v)"@,
    ) + "\n"@ + line(
        5,
        "fn visit_str<E>(self, value: &str) -> std::result::Result<Self::Value, E>"@,
    ) + line(5, "where"@) + line(6, "E: serde::de::Error,"@) + line(5, "{"@) + line(6, "value"@)
        + line(7, ".parse::<i128>()"@) + line(7, ".ok()"@) + line(
        7,
        ".and_then(|number| T::try_from(number).ok())"@,
    ) + line(7, ".map(Wide)"@) + line(
        7,
        ".ok_or_else(|| serde::de::Error::invalid_value(serde::de::Unexpected::Str(value), &self))"@,
    ) + line(5, "}"@) + line(4, "}"@)
}

/// The helper through which a 64-bit integer is read: from a JSON number, or
/// from a JSON string that spells an integer, if the integer type holds the
/// number. An empty line follows it.
pub open spec fn wide_helper_text() -> Seq<char> {
    line(2, "struct Wide<T>(T);"@) + "\n"@ + line(
        2,
        "impl<'de, T: TryFrom<i128>> serde::Deserialize<'de> for Wide<T> {"@,
    ) + line(3, "fn deserialize<D>(deserializer: D) -> Result<Self, D::Error>"@) + line(
        3,
        "where"@,
    ) + line(4, "D: serde::Deserializer<'de>,"@) + line(3, "{"@) + wide_visitor_text() + line(
        4,
        "deserializer.deserialize_any(WideVisitor(std::marker::PhantomData))"@,
    ) + line(3, "}"@) + line(2, "}"@) + "\n"@
}

/// The helper, for a message that has a field of 64-bit integers; nothing for
/// any other message.
pub open spec fn wide_helper_if_needed_text(fields: Seq<FieldDescriptor>) -> Seq<char> {
    if needs_wide(fields) {
        wide_helper_text()
    } else {
        Seq::empty()
    }
}

/// The `Deserialize` impl of the message: the table of accepted keys, the
/// helper for 64-bit integers where one is needed, the visitor, and the call
/// that hands the visitor to the deserializer.
pub open spec fn message_deserialize_text(
    message: Message,
    rust_type: Seq<char>,
    enum_types: Seq<Seq<char>>,
) -> Seq<char> {
    deserialize_start_text(0, rust_type) + fields_array_text(
        2,
        accepted_keys(message.fields@, message.fields@.len()),
    ) + wide_helper_if_needed_text(message.fields@) + message_visitor_text(
        message,
        rust_type,
        enum_types,
    ) + line(
        2,
        "deserializer.deserialize_struct(\""@ + message.path.full_name()
            + "\", FIELDS, GeneratedVisitor)"@,
    ) + deserialize_end_text(0)
}

/// All that is generated for `message` under the name `rust_type`.
pub open spec fn message_text(message: Message, rust_type: Seq<char>, enum_types: Seq<Seq<char>>) -> Seq<
    char,
> {
    message_serialize_text(message, rust_type, enum_types) + message_deserialize_text(
        message,
        rust_type,
        enum_types,
    )
}

/// How the generated struct holds `field`.
pub fn presence(field: &FieldDescriptor) -> (held: Presence)
    ensures
        held == presence_of(*field),
{
    match field.cardinality {
        Cardinality::Repeated => Presence::Repeated,
        Cardinality::Mapped => Presence::Mapped,
        Cardinality::Singular => {
            let nested = match field.field_type {
                FieldType::Message(_) => true,
                _ => false,
            };
            if field.elide_default && !nested {
                Presence::Implicit
            } else {
                Presence::Explicit
            }
        },
    }
}

/// How one value of type `field_type` goes to JSON and back.
pub fn conversion(field_type: FieldType) -> (way: Conversion)
    ensures
        way == conversion_of(field_type),
{
    match field_type {
        FieldType::Int64 => Conversion::Wide,
        FieldType::Uint64 => Conversion::Wide,
        FieldType::Enum(e) => Conversion::Named(e),
        _ => Conversion::Plain,
    }
}

/// Whether the generated name of every enum that a field of `message` refers
/// to is among `enum_types`.
pub fn names_cover(message: &Message, enum_types: &Vec<String>) -> (covered: bool)
    ensures
        covered == enums_named(message.fields@, strings_view(enum_types@)),
{
    let mut i: usize = 0;
    while i < message.fields.len()
        invariant
            i <= message.fields.len(),
            enums_named(message.fields@.take(i as int), strings_view(enum_types@)),
        decreases message.fields.len() - i,
    {
        match message.fields[i].field_type {
            FieldType::Enum(e) => if e >= enum_types.len() {
                assert(!enums_named(message.fields@, strings_view(enum_types@))) by {
                    let field = message.fields@[i as int];
                    assert(field.field_type == FieldType::Enum(e));
                }
                return false;
            },
            _ => {},
        }
        proof {
            let next = message.fields@.take(i + 1);
            assert forall|k: int| 0 <= k < next.len() implies match (#[trigger] next[k]).field_type {
                FieldType::Enum(e) => e < strings_view(enum_types@).len(),
                _ => true,
            } by {
                if k < i {
                    assert(message.fields@.take(i as int)[k] == next[k]);
                }
            }
        }
        i = i + 1;
    }
    assert(message.fields@.take(i as int) =~= message.fields@);
    true
}

/// The expression that names the field in the generated struct.
fn subject(field: &FieldDescriptor) -> (text: String)
    ensures
        text@ == subject_text(*field),
{
    let mut text = String::from_str("self.");
    text.append(field.name.as_str());
    text
}

/// The condition on which the field is written.
fn serialize_test(field: &FieldDescriptor) -> (text: String)
    ensures
        text@ == serialize_test_text(*field),
{
    let named = subject(field);
    match presence(field) {
        Presence::Implicit => match field.field_type {
            FieldType::Bool => named,
            FieldType::String => join3("!", named.as_str(), ".is_empty()"),
            _ => {
                let mut text = named;
                text.append(" != 0");
                text
            },
        },
        Presence::Explicit => join3("let Some(v) = ", named.as_str(), ".as_ref()"),
        _ => if field.elide_default {
            join3("!", named.as_str(), ".is_empty()")
        } else {
            String::from_str("true")
        },
    }
}

/// The JSON form of the value that `v` refers to.
fn element(way: Conversion, enum_types: &Vec<String>) -> (text: String)
    requires
        way matches Conversion::Named(e) ==> e < enum_types@.len(),
    ensures
        text@ == element_text(way, strings_view(enum_types@)),
{
    match way {
        Conversion::Named(e) => {
            let mut text = enum_types[e].clone();
            text.append("::json_name(*v)");
            text
        },
        _ => String::from_str("v.to_string()"),
    }
}

/// The expression whose value is written for the field.
fn serialize_expr(field: &FieldDescriptor, enum_types: &Vec<String>) -> (text: String)
    requires
        field.field_type matches FieldType::Enum(e) ==> e < enum_types@.len(),
    ensures
        text@ == serialize_expr_text(*field, strings_view(enum_types@)),
{
    let named = subject(field);
    let way = conversion(field.field_type);
    let held = presence(field);
    match way {
        Conversion::Plain => match held {
            Presence::Explicit => String::from_str("v"),
            _ => {
                let mut text = String::from_str("&");
                text.append(named.as_str());
                text
            },
        },
        _ => match held {
            Presence::Implicit => match way {
                Conversion::Named(e) => {
                    let mut text = join3("&", enum_types[e].as_str(), "::json_name(");
                    text.append(named.as_str());
                    text.append(")");
                    text
                },
                _ => join3("&", named.as_str(), ".to_string()"),
            },
            Presence::Explicit => {
                let converted = element(way, enum_types);
                let mut text = String::from_str("&");
                text.append(converted.as_str());
                text
            },
            Presence::Repeated => {
                let converted = element(way, enum_types);
                let mut text = join3("&", named.as_str(), ".iter().map(|v| ");
                text.append(converted.as_str());
                text.append(").collect::<Vec<_>>()");
                text
            },
            Presence::Mapped => {
                let converted = element(way, enum_types);
                let mut text = join3("&", named.as_str(), ".iter().map(|(k, v)| (k, ");
                text.append(converted.as_str());
                text.append(")).collect::<std::collections::BTreeMap<_, _>>()");
                text
            },
        },
    }
}

/// What is generated to write one field.
fn serialize_field(field: &FieldDescriptor, enum_types: &Vec<String>) -> (block: String)
    requires
        field.field_type matches FieldType::Enum(e) ==> e < enum_types@.len(),
    ensures
        block@ == serialize_field_text(*field, strings_view(enum_types@)),
{
    let two = Indent(2).render();
    let three = Indent(3).render();
    let test = serialize_test(field);
    let expr = serialize_expr(field, enum_types);
    let condition = join3("if ", test.as_str(), " {");
    let mut entry = join3(
        "serde::ser::SerializeMap::serialize_entry(&mut map, \"",
        field.json_name.as_str(),
        "\", ",
    );
    entry.append(expr.as_str());
    entry.append(")?;");
    let mut block = first_line(two.as_str(), condition.as_str());
    push_line(&mut block, three.as_str(), entry.as_str());
    push_line(&mut block, two.as_str(), "}");
    block
}

/// The `Serialize` impl of the message.
fn message_serialize(message: &Message, rust_type: &str, enum_types: &Vec<String>) -> (block:
    String)
    requires
        enums_named(message.fields@, strings_view(enum_types@)),
    ensures
        block@ == message_serialize_text(*message, rust_type@, strings_view(enum_types@)),
{
    let two = Indent(2).render();
    let mut fields = String::new();
    let mut i: usize = 0;
    while i < message.fields.len()
        invariant
            i <= message.fields.len(),
            enums_named(message.fields@, strings_view(enum_types@)),
            fields@ == serialize_fields_text(
                message.fields@,
                strings_view(enum_types@),
                i as nat,
            ),
        decreases message.fields.len() - i,
    {
        assert(message.fields@[i as int].field_type matches FieldType::Enum(e) ==> e
            < enum_types@.len());
        let one = serialize_field(&message.fields[i], enum_types);
        fields.append(one.as_str());
        i = i + 1;
    }
    let mut block = String::new();
    write_serialize_start(0, rust_type, &mut block);
    assert(block@ =~= serialize_start_text(0, rust_type@));
    push_line(&mut block, two.as_str(), "let mut map = serializer.serialize_map(None)?;");
    block.append(fields.as_str());
    push_line(&mut block, two.as_str(), "serde::ser::SerializeMap::end(map)");
    write_serialize_end(0, &mut block);
    block
}

/// The keys that the fields are read from.
fn collect_keys(fields: &Vec<FieldDescriptor>) -> (keys: Vec<String>)
    ensures
        strings_view(keys@) == accepted_keys(fields@, fields@.len()),
{
    let mut keys: Vec<String> = Vec::new();
    let mut i: usize = 0;
    assert(strings_view(keys@) =~= accepted_keys(fields@, 0));
    while i < fields.len()
        invariant
            i <= fields.len(),
            strings_view(keys@) == accepted_keys(fields@, i as nat),
        decreases fields.len() - i,
    {
        let ghost before = strings_view(keys@);
        keys.push(fields[i].json_name.clone());
        assert(strings_view(keys@) =~= before.push(fields@[i as int].json_name@));
        if fields[i].name != fields[i].json_name {
            let ghost with_canonical = strings_view(keys@);
            keys.push(fields[i].name.clone());
            assert(strings_view(keys@) =~= with_canonical.push(fields@[i as int].name@));
        }
        i = i + 1;
    }
    keys
}

/// The type that one value of the field is read as.
fn read_element(way: Conversion, enum_types: &Vec<String>) -> (text: String)
    requires
        way matches Conversion::Named(e) ==> e < enum_types@.len(),
    ensures
        text@ == read_element_text(way, strings_view(enum_types@)),
{
    match way {
        Conversion::Plain => String::from_str("_"),
        Conversion::Wide => String::from_str("Wide<_>"),
        Conversion::Named(e) => enum_types[e].clone(),
    }
}

/// The type that the whole field is read as.
fn read_type(held: Presence, way: Conversion, enum_types: &Vec<String>) -> (text: String)
    requires
        way matches Conversion::Named(e) ==> e < enum_types@.len(),
    ensures
        text@ == read_type_text(held, way, strings_view(enum_types@)),
{
    let one = read_element(way, enum_types);
    match held {
        Presence::Repeated => join3("Vec<", one.as_str(), ">"),
        Presence::Mapped => join3("std::collections::BTreeMap<String, ", one.as_str(), ">"),
        _ => one,
    }
}

/// What turns the value that was read into the value that the struct holds.
fn read_tail(held: Presence, way: Conversion) -> (text: &'static str)
    ensures
        text@ == read_tail_text(held, way),
{
    match held {
        Presence::Implicit => match way {
            Conversion::Plain => ".unwrap_or_default()",
            Conversion::Wide => ".map(|x| x.0).unwrap_or_default()",
            Conversion::Named(_) => ".map(|x| x as i32).unwrap_or_default()",
        },
        Presence::Explicit => match way {
            Conversion::Plain => "",
            Conversion::Wide => ".map(|x| x.0)",
            Conversion::Named(_) => ".map(|x| x as i32)",
        },
        Presence::Repeated => match way {
            Conversion::Plain => ".unwrap_or_default()",
            Conversion::Wide => ".unwrap_or_default().into_iter().map(|x| x.0).collect()",
            Conversion::Named(_) => ".unwrap_or_default().into_iter().map(|x| x as i32).collect()",
        },
        Presence::Mapped => match way {
            Conversion::Plain => ".unwrap_or_default()",
            Conversion::Wide => ".unwrap_or_default().into_iter().map(|(k, v)| (k, v.0)).collect()",
            Conversion::Named(_) => ".unwrap_or_default().into_iter().map(|(k, v)| (k, v as i32)).collect()",
        },
    }
}

/// The statement that reads the field.
fn read_statement(field: &FieldDescriptor, enum_types: &Vec<String>) -> (text: String)
    requires
        field.field_type matches FieldType::Enum(e) ==> e < enum_types@.len(),
    ensures
        text@ == read_statement_text(*field, strings_view(enum_types@)),
{
    let held = presence(field);
    let way = conversion(field.field_type);
    let read_as = read_type(held, way, enum_types);
    let mut text = join3("message.", field.name.as_str(), " = map.next_value::<Option<");
    text.append(read_as.as_str());
    text.append(">>()?");
    text.append(read_tail(held, way));
    text.append(";");
    text
}

/// The pattern that matches the keys of the field.
fn key_pattern(field: &FieldDescriptor) -> (text: String)
    ensures
        text@ == key_pattern_text(*field),
{
    if field.name == field.json_name {
        join3("\"", field.json_name.as_str(), "\"")
    } else {
        let mut text = join3("\"", field.json_name.as_str(), "\" | \"");
        text.append(field.name.as_str());
        text.append("\"");
        text
    }
}

/// What follows the reading of a member of a oneof group.
fn exclusive(fields: &Vec<FieldDescriptor>, i: usize) -> (block: String)
    requires
        i < fields@.len(),
    ensures
        block@ == exclusive_text(fields@, i as int),
{
    match fields[i].oneof {
        None => String::new(),
        Some(group) => {
            let seven = Indent(7).render();
            let eight = Indent(8).render();
            let mut clears = String::new();
            let mut k: usize = 0;
            while k < fields.len()
                invariant
                    k <= fields.len(),
                    i < fields@.len(),
                    fields@[i as int].oneof == Some(group),
                    eight@ == indent_text(8),
                    clears@ == clear_arms_text(fields@, i as int, k as nat),
                decreases fields.len() - k,
            {
                let same = match fields[k].oneof {
                    Some(other) => other == group,
                    None => false,
                };
                if k != i && same {
                    let statement = join3("message.", fields[k].name.as_str(), " = None;");
                    push_line(&mut clears, eight.as_str(), statement.as_str());
                }
                k = k + 1;
            }
            let condition = join3("if message.", fields[i].name.as_str(), ".is_some() {");
            let mut block = first_line(seven.as_str(), condition.as_str());
            block.append(clears.as_str());
            push_line(&mut block, seven.as_str(), "}");
            block
        },
    }
}

/// The arm that reads field number `i`.
fn deserialize_arm(fields: &Vec<FieldDescriptor>, i: usize, enum_types: &Vec<String>) -> (block:
    String)
    requires
        i < fields@.len(),
        fields@[i as int].field_type matches FieldType::Enum(e) ==> e < enum_types@.len(),
    ensures
        block@ == deserialize_arm_text(fields@, i as int, strings_view(enum_types@)),
{
    let six = Indent(6).render();
    let seven = Indent(7).render();
    let mut pattern = key_pattern(&fields[i]);
    pattern.append(" => {");
    let statement = read_statement(&fields[i], enum_types);
    let after = exclusive(fields, i);
    let mut block = first_line(six.as_str(), pattern.as_str());
    push_line(&mut block, seven.as_str(), statement.as_str());
    block.append(after.as_str());
    push_line(&mut block, six.as_str(), "}");
    block
}

/// The visitor that reads the message from a JSON object.
fn message_visitor(message: &Message, rust_type: &str, enum_types: &Vec<String>) -> (block: String)
    requires
        enums_named(message.fields@, strings_view(enum_types@)),
    ensures
        block@ == message_visitor_text(*message, rust_type@, strings_view(enum_types@)),
{
    let two = Indent(2).render();
    let three = Indent(3).render();
    let four = Indent(4).render();
    let five = Indent(5).render();
    let six = Indent(6).render();
    let seven = Indent(7).render();
    let full_name = message.path.dotted_name();
    let mut arms = String::new();
    let mut i: usize = 0;
    while i < message.fields.len()
        invariant
            i <= message.fields.len(),
            enums_named(message.fields@, strings_view(enum_types@)),
            arms@ == deserialize_arms_text(
                message.fields@,
                strings_view(enum_types@),
                i as nat,
            ),
        decreases message.fields.len() - i,
    {
        assert(message.fields@[i as int].field_type matches FieldType::Enum(e) ==> e
            < enum_types@.len());
        let arm = deserialize_arm(&message.fields, i, enum_types);
        arms.append(arm.as_str());
        i = i + 1;
    }
    let mut block = first_line(two.as_str(), "struct GeneratedVisitor;");
    block.append("\n");
    push_line(
        &mut block,
        two.as_str(),
        "impl<'de> serde::de::Visitor<'de> for GeneratedVisitor {",
    );
    push_line3(&mut block, three.as_str(), "type Value = ", rust_type, ";");
    block.append("\n");
    push_line(
        &mut block,
        three.as_str(),
        "fn expecting(&self, formatter: &mut std::fmt::Formatter<'_>) -> std::fmt::Result {",
    );
    push_line3(
        &mut block,
        four.as_str(),
        "formatter.write_str(\"struct ",
        full_name.as_str(),
        "\")",
    );
    push_line(&mut block, three.as_str(), "}");
    block.append("\n");
    push_line(
        &mut block,
        three.as_str(),
        "fn visit_map<V>(self, mut map: V) -> std::result::Result<Self::Value, V::Error>",
    );
    push_line(&mut block, three.as_str(), "where");
    push_line(&mut block, four.as_str(), "V: serde::de::MapAccess<'de>,");
    push_line(&mut block, three.as_str(), "{");
    push_line3(&mut block, four.as_str(), "let mut message = ", rust_type, "::default();");
    push_line(&mut block, four.as_str(), "while let Some(key) = map.next_key::<String>()? {");
    push_line(&mut block, five.as_str(), "match key.as_str() {");
    block.append(arms.as_str());
    push_line(&mut block, six.as_str(), "_ => {");
    push_line(&mut block, seven.as_str(), "map.next_value::<serde::de::IgnoredAny>()?;");
    push_line(&mut block, six.as_str(), "}");
    push_line(&mut block, five.as_str(), "}");
    push_line(&mut block, four.as_str(), "}");
    push_line(&mut block, four.as_str(), "Ok(message)");
    push_line(&mut block, three.as_str(), "}");
    push_line(&mut block, two.as_str(), "}");
    block
}

/// Whether some field holds 64-bit integers.
pub fn has_wide_field(fields: &Vec<FieldDescriptor>) -> (found: bool)
    ensures
        found == needs_wide(fields@),
{
    let mut i: usize = 0;
    while i < fields.len()
        invariant
            i <= fields.len(),
            forall|k: int| 0 <= k < i ==> !(conversion_of((#[trigger] fields@[k]).field_type) is Wide),
        decreases fields.len() - i,
    {
        match conversion(fields[i].field_type) {
            Conversion::Wide => {
                assert(conversion_of(fields@[i as int].field_type) is Wide);
                return true;
            },
            _ => {},
        }
        i = i + 1;
    }
    false
}

/// A method of the helper's visitor that takes a JSON number.
fn wide_visit_number(signature: &str, unexpected: &str) -> (block: String)
    ensures
        block@ == wide_visit_number_text(signature@, unexpected@),
{
    let five = Indent(5).render();
    let six = Indent(6).render();
    let seven = Indent(7).render();
    let mut block = first_line(five.as_str(), signature);
    push_line(&mut block, five.as_str(), "where");
    push_line(&mut block, six.as_str(), "E: serde::de::Error,");
    push_line(&mut block, five.as_str(), "{");
    push_line(&mut block, six.as_str(), "T::try_from(v as i128)");
    push_line(&mut block, seven.as_str(), ".map(Wide)");
    push_line3(
        &mut block,
        seven.as_str(),
        ".map_err(|_| serde::de::Error::invalid_value(",
        unexpected,
        ", &self))",
    );
    push_line(&mut block, five.as_str(), "}");
    block
}

/// The visitor of the helper.
fn wide_visitor() -> (block: String)
    ensures
        block@ == wide_visitor_text(),
{
    let four = Indent(4).render();
    let five = Indent(5).render();
    let six = Indent(6).render();
    let seven = Indent(7).render();
    let signed = wide_visit_number(
        "fn visit_i64<E>(self, v: i64) -> std::result::Result<Self::Value, E>",
        "serde::de::Unexpected::Signed(v)",
    );
    let unsigned = wide_visit_number(
        "fn visit_u64<E>(self, v: u64) -> std::result::Result<Self::Value, E>",
        "serde::de::Unexpected::Unsigned(v)",
    );
    let mut block = first_line(
        four.as_str(),
        "struct WideVisitor<T>(std::marker::PhantomData<T>);",
    );
    block.append("\n");
    push_line(
        &mut block,
        four.as_str(),
        "impl<'de, T: TryFrom<i128>> serde::de::Visitor<'de> for WideVisitor<T> {",
    );
    push_line(&mut block, five.as_str(), "type Value = Wide<T>;");
    block.append("\n");
    push_line(
        &mut block,
        five.as_str(),
        "fn expecting(&self, formatter: &mut std::fmt::Formatter<'_>) -> std::fmt::Result {",
    );
    push_line(
        &mut block,
        six.as_str(),
        "formatter.write_str(\"an integer or a string that spells one\")",
    );
    push_line(&mut block, five.as_str(), "}");
    block.append("\n");
    block.append(signed.as_str());
    block.append("\n");
    block.append(unsigned.as_str());
    block.append("\n");
    push_line(
        &mut block,
        five.as_str(),
        "fn visit_str<E>(self, value: &str) -> std::result::Result<Self::Value, E>",
    );
    push_line(&mut block, five.as_str(), "where");
    push_line(&mut block, six.as_str(), "E: serde::de::Error,");
    push_line(&mut block, five.as_str(), "{");
    push_line(&mut block, six.as_str(), "value");
    push_line(&mut block, seven.as_str(), ".parse::<i128>()");
    push_line(&mut block, seven.as_str(), ".ok()");
    push_line(&mut block, seven.as_str(), ".and_then(|number| T::try_from(number).ok())");
    push_line(&mut block, seven.as_str(), ".map(Wide)");
    push_line(
        &mut block,
        seven.as_str(),
        ".ok_or_else(|| serde::de::Error::invalid_value(serde::de::Unexpected::Str(value), &self))",
    );
    push_line(&mut block, five.as_str(), "}");
    push_line(&mut block, four.as_str(), "}");
    block
}

/// The helper through which a 64-bit integer is read.
fn wide_helper() -> (block: String)
    ensures
        block@ == wide_helper_text(),
{
    let two = Indent(2).render();
    let three = Indent(3).render();
    let four = Indent(4).render();
    let visitor = wide_visitor();
    let mut block = first_line(two.as_str(), "struct Wide<T>(T);");
    block.append("\n");
    push_line(
        &mut block,
        two.as_str(),
        "impl<'de, T: TryFrom<i128>> serde::Deserialize<'de> for Wide<T> {",
    );
    push_line(
        &mut block,
        three.as_str(),
        "fn deserialize<D>(deserializer: D) -> Result<Self, D::Error>",
    );
    push_line(&mut block, three.as_str(), "where");
    push_line(&mut block, four.as_str(), "D: serde::Deserializer<'de>,");
    push_line(&mut block, three.as_str(), "{");
    block.append(visitor.as_str());
    push_line(
        &mut block,
        four.as_str(),
        "deserializer.deserialize_any(WideVisitor(std::marker::PhantomData))",
    );
    push_line(&mut block, three.as_str(), "}");
    push_line(&mut block, two.as_str(), "}");
    block.append("\n");
    block
}

/// The `Deserialize` impl of the message.
fn message_deserialize(message: &Message, rust_type: &str, enum_types: &Vec<String>) -> (block:
    String)
    requires
        enums_named(message.fields@, strings_view(enum_types@)),
    ensures
        block@ == message_deserialize_text(*message, rust_type@, strings_view(enum_types@)),
{
    let two = Indent(2).render();
    let keys = collect_keys(&message.fields);
    let visitor = message_visitor(message, rust_type, enum_types);
    let full_name = message.path.dotted_name();
    let mut block = String::new();
    write_deserialize_start(0, rust_type, &mut block);
    assert(block@ =~= deserialize_start_text(0, rust_type@));
    write_fields_array(&mut block, 2, &keys);
    let helper = if has_wide_field(&message.fields) {
        wide_helper()
    } else {
        String::new()
    };
    block.append(helper.as_str());
    block.append(visitor.as_str());
    push_line3(
        &mut block,
        two.as_str(),
        "deserializer.deserialize_struct(\"",
        full_name.as_str(),
        "\", FIELDS, GeneratedVisitor)",
    );
    write_deserialize_end(0, &mut block);
    block
}

/// Appends to `writer` all that is generated for `message` under the name
/// `rust_type`: the `Serialize` impl, then the `Deserialize` impl with the
/// table of accepted keys. `enum_types` holds the generated name of each enum
/// of the schema, by its number.
pub fn generate_message(
    message: &Message,
    rust_type: &str,
    enum_types: &Vec<String>,
    writer: &mut String,
)
    requires
        enums_named(message.fields@, strings_view(enum_types@)),
    ensures
        final(writer)@ == old(writer)@ + message_text(
            *message,
            rust_type@,
            strings_view(enum_types@),
        ),
{
    let mut block = message_serialize(message, rust_type, enum_types);
    let deserialize = message_deserialize(message, rust_type, enum_types);
    block.append(deserialize.as_str());
    writer.append(block.as_str());
}

/// All that is generated for a type that may be well known: what is
/// generated for the message, followed, for a well-known message, by its
/// registration block.
pub open spec fn type_text(message: Message, rust_type: Seq<char>, enum_types: Seq<Seq<char>>) -> Seq<
    char,
> {
    if message.well_known {
        message_text(message, rust_type, enum_types) + wkt_message_serde_text(
            0,
            message,
            rust_type,
        )
    } else {
        message_text(message, rust_type, enum_types)
    }
}

/// Appends to `writer` all that is generated for `message`, and after it the
/// registration block if the message is flagged as well known.
pub fn generate_type(
    message: &Message,
    rust_type: &str,
    enum_types: &Vec<String>,
    writer: &mut String,
)
    requires
        enums_named(message.fields@, strings_view(enum_types@)),
        message.well_known ==> message.path.wf(),
    ensures
        final(writer)@ == old(writer)@ + type_text(
            *message,
            rust_type@,
            strings_view(enum_types@),
        ),
{
    let mut block = String::new();
    generate_message(message, rust_type, enum_types, &mut block);
    assert(block@ =~= message_text(*message, rust_type@, strings_view(enum_types@)));
    if message.well_known {
        write_wkt_message_serde(0, message, rust_type, &mut block);
    }
    writer.append(block.as_str());
}

/// The generated struct holds a field in an `Option` exactly where the field
/// is singular and nothing is its default, and bare exactly where it is
/// singular and has a default of its own.
pub proof fn lemma_presence_follows_default(field: FieldDescriptor)
    ensures
        presence_of(field) is Explicit <==> field.cardinality == Cardinality::Singular
            && default_slot(field) is Unset,
        presence_of(field) is Implicit <==> field.cardinality == Cardinality::Singular && !(
        default_slot(field) is Unset),
{
}

/// The way in which the generated code converts a value follows the kind of
/// the value: a 64-bit integer goes through its decimal string, as the
/// mapping writes it, an enum through the procedures of its enum, whose
/// string is the one that the mapping writes, and any other value as it is.
pub proof fn lemma_conversion_follows_kind(schema: Schema, field_type: FieldType, value: ValueView)
    requires
        conforms(schema, field_type, value),
    ensures
        conversion_of(field_type) is Wide <==> value is Int64 || value is Uint64,
        conversion_of(field_type) is Wide ==> encoded_value(schema, field_type, value) is String,
        conversion_of(field_type) matches Conversion::Named(e) ==> value is Enum && encoded_value(
            schema,
            field_type,
            value,
        ) == JsonView::String(schema.enums@[e as int].encode_text(value->Enum_0)),
        conversion_of(field_type) is Plain ==> !(value is Enum) && !(value is Int64) && !(value
            is Uint64),
{
}

/// The keys in the table of the first `n` fields are the names of those
/// fields.
proof fn lemma_accepted_keys(fields: Seq<FieldDescriptor>, n: nat, key: Seq<char>)
    requires
        n <= fields.len(),
    ensures
        accepted_keys(fields, n).contains(key) <==> exists|i: int|
            0 <= i < n && answers_to(key)(#[trigger] fields[i]),
    decreases n,
{
    if n > 0 {
        let field = fields[n - 1];
        let before = accepted_keys(fields, (n - 1) as nat);
        let with_canonical = before.push(field.json_name@);
        let keys = accepted_keys(fields, n);
        lemma_accepted_keys(fields, (n - 1) as nat, key);
        if keys.contains(key) {
            let k = choose|k: int| 0 <= k < keys.len() && keys[k] == key;
            if k < before.len() {
                assert(before[k] == key);
                let i = choose|i: int| 0 <= i < n - 1 && answers_to(key)(#[trigger] fields[i]);
                assert(answers_to(key)(fields[i]));
            } else {
                assert(answers_to(key)(fields[n - 1]));
            }
        }
        if exists|i: int| 0 <= i < n && answers_to(key)(#[trigger] fields[i]) {
            let i = choose|i: int| 0 <= i < n && answers_to(key)(#[trigger] fields[i]);
            if i < n - 1 {
                let k = choose|k: int| 0 <= k < before.len() && before[k] == key;
                assert(keys[k] == key);
            } else if field.json_name@ == key {
                assert(with_canonical[before.len() as int] == key);
                assert(keys[before.len() as int] == key);
            } else {
                assert(keys[before.len() as int + 1] == key);
            }
        }
    }
}

/// The generated table of accepted keys agrees with the mapping: a key is in
/// the table exactly when it names a field.
pub proof fn lemma_table_holds_the_names(message: Message, key: Seq<char>)
    ensures
        accepted_keys(message.fields@, message.fields@.len()).contains(key)
            <==> message.field_index(key) is Some,
{
    lemma_accepted_keys(message.fields@, message.fields@.len(), key);
    lemma_first_match(message.fields@, answers_to(key));
}

} // verus!
