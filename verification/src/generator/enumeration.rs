//! The code generated for an enum: its name table, the procedure that gives
//! each discriminant its JSON string, the procedure that reads a discriminant
//! from a JSON string, and the two serde impls that rest on them.

use vstd::prelude::*;
use crate::decimal::{decimal, decimal_string};
use crate::descriptor::EnumDescriptor;
use crate::generator::{
    deserialize_end_text, deserialize_start_text, fields_array_text, serialize_end_text,
    serialize_start_text, write_deserialize_end, write_deserialize_start, write_fields_array,
    write_serialize_end, write_serialize_start,
};
use crate::indent::{indent_text, Indent};
use crate::search::lemma_first_match;
use crate::enum_mapping::has_number;
use crate::text::{first_line, line, push_line, push_line3, strings_view};

verus! {

/// Whether variant number `i` is the first that was declared with its
/// discriminant.
pub open spec fn is_canonical(e: EnumDescriptor, i: int) -> bool {
    e.canonical_index(e.variants@[i].number) == Some(i)
}

/// The names of the variants, in declaration order.
pub open spec fn variant_names(e: EnumDescriptor) -> Seq<Seq<char>> {
    Seq::new(e.variants@.len(), |i: int| e.variants@[i].name@)
}

/// The arm that gives a discriminant its JSON string.
pub open spec fn encode_arm(number: i32, name: Seq<char>) -> Seq<char> {
    decimal(number as int) + " => std::borrow::Cow::Borrowed(\""@ + name + "\"),"@
}

/// The arm that gives a name its discriminant.
pub open spec fn decode_arm(number: i32, name: Seq<char>) -> Seq<char> {
    "\""@ + name + "\" => Some("@ + decimal(number as int) + "),"@
}

/// The arm that says that a discriminant is declared.
pub open spec fn declared_arm(number: i32) -> Seq<char> {
    decimal(number as int) + " => true,"@
}

/// The encode arms of the first `n` variants: one for each variant that is
/// the first with its discriminant, in declaration order.
pub open spec fn encode_arms_text(depth: nat, e: EnumDescriptor, n: nat) -> Seq<char>
    decreases n,
{
    if n == 0 {
        Seq::empty()
    } else {
        let before = encode_arms_text(depth, e, (n - 1) as nat);
        let variant = e.variants@[n - 1];
        if is_canonical(e, n - 1) {
            before + line(depth, encode_arm(variant.number, variant.name@))
        } else {
            before
        }
    }
}

/// The decode arms of the first `n` variants: one for each variant, alias or
/// not, in declaration order.
pub open spec fn decode_arms_text(depth: nat, e: EnumDescriptor, n: nat) -> Seq<char>
    decreases n,
{
    if n == 0 {
        Seq::empty()
    } else {
        let variant = e.variants@[n - 1];
        decode_arms_text(depth, e, (n - 1) as nat) + line(
            depth,
            decode_arm(variant.number, variant.name@),
        )
    }
}

/// The arms that list the declared discriminants among the first `n`
/// variants, each discriminant once.
pub open spec fn declared_arms_text(depth: nat, e: EnumDescriptor, n: nat) -> Seq<char>
    decreases n,
{
    if n == 0 {
        Seq::empty()
    } else {
        let before = declared_arms_text(depth, e, (n - 1) as nat);
        if is_canonical(e, n - 1) {
            before + line(depth, declared_arm(e.variants@[n - 1].number))
        } else {
            before
        }
    }
}

/// The procedure that gives each discriminant its JSON string.
pub open spec fn json_name_text(e: EnumDescriptor) -> Seq<char> {
    line(1, "/// The JSON string of a discriminant."@) + line(
        1,
        "pub fn json_name(number: i32) -> std::borrow::Cow<'static, str> {"@,
    ) + line(2, "match number {"@) + encode_arms_text(3, e, e.variants@.len()) + line(
        3,
        "other => std::borrow::Cow::Owned(other.to_string()),"@,
    ) + line(2, "}"@) + line(1, "}"@)
}

/// The procedure that reads a discriminant from a JSON string.
pub open spec fn from_json_name_text(e: EnumDescriptor) -> Seq<char> {
    line(1, "/// The discriminant that a JSON string stands for."@) + line(
        1,
        "pub fn from_json_name(value: &str) -> Option<i32> {"@,
    ) + line(2, "match value {"@) + decode_arms_text(3, e, e.variants@.len()) + line(
        3,
        "other => other.parse::<i32>().ok().filter(|number| Self::declares(*number)),"@,
    ) + line(2, "}"@) + line(1, "}"@)
}

/// The procedure that says whether a discriminant is declared.
pub open spec fn declares_text(e: EnumDescriptor) -> Seq<char> {
    line(1, "/// Whether a variant has the discriminant."@) + line(
        1,
        "pub fn declares(number: i32) -> bool {"@,
    ) + line(2, "match number {"@) + declared_arms_text(3, e, e.variants@.len()) + line(
        3,
        "_ => false,"@,
    ) + line(2, "}"@) + line(1, "}"@)
}

/// The inherent impl of the generated type: the name table and the three
/// procedures, an empty line between them.
pub open spec fn enum_tables_text(e: EnumDescriptor, rust_type: Seq<char>) -> Seq<char> {
    line(0, "impl "@ + rust_type + " {"@) + fields_array_text(1, variant_names(e))
        + json_name_text(e) + "\n"@ + from_json_name_text(e) + "\n"@ + declares_text(e) + line(
        0,
        "}"@,
    )
}

/// The `Serialize` impl: the value is written as the JSON string of its
/// discriminant.
pub open spec fn enum_serialize_text(rust_type: Seq<char>) -> Seq<char> {
    serialize_start_text(0, rust_type) + line(
        2,
        "serializer.serialize_str(&Self::json_name(*self as i32))"@,
    ) + serialize_end_text(0)
}

/// The method of the visitor that reads a discriminant from a JSON number of
/// the signedness that `method` and `unexpected` name.
pub open spec fn visit_number_text(
    rust_type: Seq<char>,
    signature: Seq<char>,
    unexpected: Seq<char>,
) -> Seq<char> {
    line(3, signature) + line(3, "where"@) + line(4, "E: serde::de::Error,"@) + line(3, "{"@)
        + line(4, "i32::try_from(v)"@) + line(5, ".ok()"@) + line(
        5,
        ".filter(|number| "@ + rust_type + "::declares(*number))"@,
    ) + line(5, ".and_then(|number| "@ + rust_type + "::try_from(number).ok())"@) + line(
        5,
        ".ok_or_else(|| serde::de::Error::invalid_value("@ + unexpected + ", &self))"@,
    ) + line(3, "}"@)
}

/// The visitor that reads a value of the generated type from a JSON string or
/// a JSON number.
pub open spec fn enum_visitor_text(rust_type: Seq<char>) -> Seq<char> {
    line(2, "struct GeneratedVisitor;"@) + "\n"@ + line(
        2,
        "impl<'de> serde::de::Visitor<'de> for GeneratedVisitor {"@,
    ) + line(3, "type Value = "@ + rust_type + ";"@) + "\n"@ + line(
        3,
        "fn expecting(&self, formatter: &mut std::fmt::Formatter<'_>) -> std::fmt::Result {"@,
    ) + line(4, "formatter.write_str(\"one of: \")?;"@) + line(
        4,
        "formatter.debug_list().entries("@ + rust_type + "::FIELDS.iter()).finish()"@,
    ) + line(3, "}"@) + "\n"@ + visit_number_text(
        rust_type,
        "fn visit_i64<E>(self, v: i64) -> std::result::Result<Self::Value, E>"@,
        "serde::de::Unexpected::Signed(v)"@,
    ) + "\n"@ + visit_number_text(
        rust_type,
        "fn visit_u64<E>(self, v: u64) -> std::result::Result<Self::Value, E>"@,
        "serde::de::Unexpected::Unsigned(v)"@,
    ) + "\n"@ + line(
        3,
        "fn visit_str<E>(self, value: &str) -> std::result::Result<Self::Value, E>"@,
    ) + line(3, "where"@) + line(4, "E: serde::de::Error,"@) + line(3, "{"@) + line(
        4,
        ""@ + rust_type + "::from_json_name(value)"@,
    ) + line(5, ".and_then(|number| "@ + rust_type + "::try_from(number).ok())"@) + line(
        5,
        ".ok_or_else(|| serde::de::Error::unknown_variant(value, "@ + rust_type + "::FIELDS))"@,
    ) + line(3, "}"@) + line(2, "}"@)
}

/// The `Deserialize` impl: the value is read by the visitor, from a string or
/// from a number.
pub open spec fn enum_deserialize_text(rust_type: Seq<char>) -> Seq<char> {
    deserialize_start_text(0, rust_type) + enum_visitor_text(rust_type) + line(
        2,
        "deserializer.deserialize_any(GeneratedVisitor)"@,
    ) + deserialize_end_text(0)
}

/// All that is generated for the enum `e` under the name `rust_type`.
pub open spec fn enum_text(e: EnumDescriptor, rust_type: Seq<char>) -> Seq<char> {
    enum_tables_text(e, rust_type) + enum_serialize_text(rust_type) + enum_deserialize_text(
        rust_type,
    )
}

/// Whether variant number `i` is the first that was declared with its
/// discriminant.
pub fn variant_is_canonical(e: &EnumDescriptor, i: usize) -> (first: bool)
    requires
        i < e.variants@.len(),
    ensures
        first == is_canonical(*e, i as int),
{
    match e.find_number(e.variants[i].number) {
        Some(found) => found == i,
        None => false,
    }
}

/// The names of the variants, in declaration order.
fn collect_names(e: &EnumDescriptor) -> (names: Vec<String>)
    ensures
        strings_view(names@) == variant_names(*e),
{
    let mut names: Vec<String> = Vec::new();
    let mut i: usize = 0;
    while i < e.variants.len()
        invariant
            i <= e.variants.len(),
            names@.len() == i,
            forall|k: int| 0 <= k < i ==> (#[trigger] names@[k])@ == e.variants@[k].name@,
        decreases e.variants.len() - i,
    {
        names.push(e.variants[i].name.clone());
        i = i + 1;
    }
    assert(strings_view(names@) =~= variant_names(*e));
    names
}

/// The encode arms of all variants.
fn encode_arms(e: &EnumDescriptor) -> (block: String)
    ensures
        block@ == encode_arms_text(3, *e, e.variants@.len()),
{
    let indent = Indent(3).render();
    let mut block = String::new();
    let mut i: usize = 0;
    while i < e.variants.len()
        invariant
            i <= e.variants.len(),
            indent@ == indent_text(3),
            block@ == encode_arms_text(3, *e, i as nat),
        decreases e.variants.len() - i,
    {
        if variant_is_canonical(e, i) {
            let mut arm = decimal_string(e.variants[i].number as i128);
            arm.append(" => std::borrow::Cow::Borrowed(\"");
            arm.append(e.variants[i].name.as_str());
            arm.append("\"),");
            push_line(&mut block, indent.as_str(), arm.as_str());
        }
        i = i + 1;
    }
    block
}

/// The decode arms of all variants.
fn decode_arms(e: &EnumDescriptor) -> (block: String)
    ensures
        block@ == decode_arms_text(3, *e, e.variants@.len()),
{
    let indent = Indent(3).render();
    let mut block = String::new();
    let mut i: usize = 0;
    while i < e.variants.len()
        invariant
            i <= e.variants.len(),
            indent@ == indent_text(3),
            block@ == decode_arms_text(3, *e, i as nat),
        decreases e.variants.len() - i,
    {
        let number = decimal_string(e.variants[i].number as i128);
        let mut arm = String::from_str("\"");
        arm.append(e.variants[i].name.as_str());
        arm.append("\" => Some(");
        arm.append(number.as_str());
        arm.append("),");
        push_line(&mut block, indent.as_str(), arm.as_str());
        i = i + 1;
    }
    block
}

/// The arms that list the declared discriminants.
fn declared_arms(e: &EnumDescriptor) -> (block: String)
    ensures
        block@ == declared_arms_text(3, *e, e.variants@.len()),
{
    let indent = Indent(3).render();
    let mut block = String::new();
    let mut i: usize = 0;
    while i < e.variants.len()
        invariant
            i <= e.variants.len(),
            indent@ == indent_text(3),
            block@ == declared_arms_text(3, *e, i as nat),
        decreases e.variants.len() - i,
    {
        if variant_is_canonical(e, i) {
            let mut arm = decimal_string(e.variants[i].number as i128);
            arm.append(" => true,");
            push_line(&mut block, indent.as_str(), arm.as_str());
        }
        i = i + 1;
    }
    block
}

/// A procedure of the inherent impl: its comment and header, the opening of
/// its `match`, the arms, the last arm, and the closing braces.
fn procedure(comment: &str, header: &str, scrutinee: &str, arms: &str, last: &str) -> (block:
    String)
    ensures
        block@ == line(1, comment@) + line(1, header@) + line(2, scrutinee@) + arms@ + line(
            3,
            last@,
        ) + line(2, "}"@) + line(1, "}"@),
{
    let one = Indent(1).render();
    let two = Indent(2).render();
    let three = Indent(3).render();
    let mut block = first_line(one.as_str(), comment);
    push_line(&mut block, one.as_str(), header);
    push_line(&mut block, two.as_str(), scrutinee);
    block.append(arms);
    push_line(&mut block, three.as_str(), last);
    push_line(&mut block, two.as_str(), "}");
    push_line(&mut block, one.as_str(), "}");
    block
}

/// The inherent impl of the generated type.
fn enum_tables(e: &EnumDescriptor, rust_type: &str) -> (block: String)
    ensures
        block@ == enum_tables_text(*e, rust_type@),
{
    let zero = Indent(0).render();
    let names = collect_names(e);
    let encode = encode_arms(e);
    let decode = decode_arms(e);
    let declared = declared_arms(e);
    let json_name = procedure(
        "/// The JSON string of a discriminant.",
        "pub fn json_name(number: i32) -> std::borrow::Cow<'static, str> {",
        "match number {",
        encode.as_str(),
        "other => std::borrow::Cow::Owned(other.to_string()),",
    );
    let from_json_name = procedure(
        "/// The discriminant that a JSON string stands for.",
        "pub fn from_json_name(value: &str) -> Option<i32> {",
        "match value {",
        decode.as_str(),
        "other => other.parse::<i32>().ok().filter(|number| Self::declares(*number)),",
    );
    let declares = procedure(
        "/// Whether a variant has the discriminant.",
        "pub fn declares(number: i32) -> bool {",
        "match number {",
        declared.as_str(),
        "_ => false,",
    );
    let mut block = String::new();
    push_line3(&mut block, zero.as_str(), "impl ", rust_type, " {");
    assert(block@ =~= line(0, "impl "@ + rust_type@ + " {"@));
    write_fields_array(&mut block, 1, &names);
    block.append(json_name.as_str());
    block.append("\n");
    block.append(from_json_name.as_str());
    block.append("\n");
    block.append(declares.as_str());
    push_line(&mut block, zero.as_str(), "}");
    block
}

/// The `Serialize` impl of the generated type.
fn enum_serialize(rust_type: &str) -> (block: String)
    ensures
        block@ == enum_serialize_text(rust_type@),
{
    let two = Indent(2).render();
    let mut block = String::new();
    write_serialize_start(0, rust_type, &mut block);
    assert(block@ =~= serialize_start_text(0, rust_type@));
    push_line(
        &mut block,
        two.as_str(),
        "serializer.serialize_str(&Self::json_name(*self as i32))",
    );
    write_serialize_end(0, &mut block);
    block
}

/// A method of the visitor that reads a discriminant from a JSON number.
fn visit_number(rust_type: &str, signature: &str, unexpected: &str) -> (block: String)
    ensures
        block@ == visit_number_text(rust_type@, signature@, unexpected@),
{
    let three = Indent(3).render();
    let four = Indent(4).render();
    let five = Indent(5).render();
    let mut block = first_line(three.as_str(), signature);
    push_line(&mut block, three.as_str(), "where");
    push_line(&mut block, four.as_str(), "E: serde::de::Error,");
    push_line(&mut block, three.as_str(), "{");
    push_line(&mut block, four.as_str(), "i32::try_from(v)");
    push_line(&mut block, five.as_str(), ".ok()");
    push_line3(&mut block, five.as_str(), ".filter(|number| ", rust_type, "::declares(*number))");
    push_line3(
        &mut block,
        five.as_str(),
        ".and_then(|number| ",
        rust_type,
        "::try_from(number).ok())",
    );
    push_line3(
        &mut block,
        five.as_str(),
        ".ok_or_else(|| serde::de::Error::invalid_value(",
        unexpected,
        ", &self))",
    );
    push_line(&mut block, three.as_str(), "}");
    block
}

/// The visitor of the generated type.
fn enum_visitor(rust_type: &str) -> (block: String)
    ensures
        block@ == enum_visitor_text(rust_type@),
{
    let two = Indent(2).render();
    let three = Indent(3).render();
    let four = Indent(4).render();
    let five = Indent(5).render();
    let signed = visit_number(
        rust_type,
        "fn visit_i64<E>(self, v: i64) -> std::result::Result<Self::Value, E>",
        "serde::de::Unexpected::Signed(v)",
    );
    let unsigned = visit_number(
        rust_type,
        "fn visit_u64<E>(self, v: u64) -> std::result::Result<Self::Value, E>",
        "serde::de::Unexpected::Unsigned(v)",
    );
    let mut block = first_line(two.as_str(), "struct GeneratedVisitor;");
    block.append("\n");
    push_line(
        &mut block,
        two.as_str(),
        "impl<'de> serde::de::Visitor<'de> for GeneratedVisitor {",
    );
    push_line3(&mut block, three.as_str(), "type Value = ", rust_type, ";");
    block.append("\n");
    push_line(
        &mut block,
        three.as_str(),
        "fn expecting(&self, formatter: &mut std::fmt::Formatter<'_>) -> std::fmt::Result {",
    );
    push_line(&mut block, four.as_str(), "formatter.write_str(\"one of: \")?;");
    push_line3(
        &mut block,
        four.as_str(),
        "formatter.debug_list().entries(",
        rust_type,
        "::FIELDS.iter()).finish()",
    );
    push_line(&mut block, three.as_str(), "}");
    block.append("\n");
    block.append(signed.as_str());
    block.append("\n");
    block.append(unsigned.as_str());
    block.append("\n");
    push_line(
        &mut block,
        three.as_str(),
        "fn visit_str<E>(self, value: &str) -> std::result::Result<Self::Value, E>",
    );
    push_line(&mut block, three.as_str(), "where");
    push_line(&mut block, four.as_str(), "E: serde::de::Error,");
    push_line(&mut block, three.as_str(), "{");
    push_line3(&mut block, four.as_str(), "", rust_type, "::from_json_name(value)");
    push_line3(
        &mut block,
        five.as_str(),
        ".and_then(|number| ",
        rust_type,
        "::try_from(number).ok())",
    );
    push_line3(
        &mut block,
        five.as_str(),
        ".ok_or_else(|| serde::de::Error::unknown_variant(value, ",
        rust_type,
        "::FIELDS))",
    );
    push_line(&mut block, three.as_str(), "}");
    push_line(&mut block, two.as_str(), "}");
    block
}

/// The `Deserialize` impl of the generated type.
fn enum_deserialize(rust_type: &str) -> (block: String)
    ensures
        block@ == enum_deserialize_text(rust_type@),
{
    let two = Indent(2).render();
    let visitor = enum_visitor(rust_type);
    let mut block = String::new();
    write_deserialize_start(0, rust_type, &mut block);
    assert(block@ =~= deserialize_start_text(0, rust_type@));
    block.append(visitor.as_str());
    push_line(&mut block, two.as_str(), "deserializer.deserialize_any(GeneratedVisitor)");
    write_deserialize_end(0, &mut block);
    block
}

/// Appends to `writer` all that is generated for the enum `descriptor` under
/// the name `rust_type`: the name table, the encode and decode procedures,
/// and the two serde impls.
pub fn generate_enum(descriptor: &EnumDescriptor, rust_type: &str, writer: &mut String)
    ensures
        final(writer)@ == old(writer)@ + enum_text(*descriptor, rust_type@),
{
    let mut block = enum_tables(descriptor, rust_type);
    let serialize = enum_serialize(rust_type);
    let deserialize = enum_deserialize(rust_type);
    block.append(serialize.as_str());
    block.append(deserialize.as_str());
    writer.append(block.as_str());
}

/// The generated encode arms agree with the mapping: a variant that gets an
/// arm is written under its own name, and every declared discriminant has
/// the arm of exactly one variant.
pub proof fn lemma_encode_arms_agree(e: EnumDescriptor, i: int, number: i32)
    requires
        0 <= i < e.variants@.len(),
        e.declares(number as int),
    ensures
        is_canonical(e, i) ==> e.encode_text(e.variants@[i].number) == e.variants@[i].name@,
        ({
            let first = e.canonical_index(number);
            &&& first is Some
            &&& 0 <= first->0 < e.variants@.len()
            &&& is_canonical(e, first->0)
            &&& e.variants@[first->0].number == number
            &&& forall|j: int|
                0 <= j < e.variants@.len() && is_canonical(e, j) && e.variants@[j].number == number
                    ==> j == first->0
        }),
{
    lemma_first_match(e.variants@, has_number(number));
    let k = choose|k: int|
        0 <= k < e.variants@.len() && #[trigger] e.variants@[k].number == number;
    assert(has_number(number)(e.variants@[k]));
}

} // verus!
