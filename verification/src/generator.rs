//! The emitters shared by every generated type: the name table, the frames of
//! the two serde impls, and the registration block of a well-known type.

pub mod enumeration;
pub mod message;

use vstd::prelude::*;
use crate::descriptor::Message;
use crate::indent::{indent_text, lemma_indent_step, Indent};
use crate::text::{first_line, join3, line, push_line, strings_view};

verus! {

/// One quoted entry per name, each on a line of its own at `depth`.
pub open spec fn fields_entries_text(depth: nat, names: Seq<Seq<char>>) -> Seq<char>
    decreases names.len(),
{
    if names.len() == 0 {
        Seq::empty()
    } else {
        fields_entries_text(depth, names.drop_last()) + line(
            depth,
            "\""@ + names.last() + "\","@,
        )
    }
}

/// The name table: a constant array that lists `names` in order, followed by
/// an empty line.
pub open spec fn fields_array_text(depth: nat, names: Seq<Seq<char>>) -> Seq<char> {
    line(depth, "const FIELDS: &[&str] = &["@) + fields_entries_text(depth + 1, names) + line(
        depth,
        "];"@,
    ) + "\n"@
}

/// The opening of the `Serialize` impl of `rust_type`, up to and including the
/// brace that opens the body of `serialize`.
pub open spec fn serialize_start_text(depth: nat, rust_type: Seq<char>) -> Seq<char> {
    line(depth, "impl serde::Serialize for "@ + rust_type + " {"@) + line(
        depth,
        "    #[allow(deprecated)]"@,
    ) + line(
        depth,
        "    fn serialize<S>(&self, serializer: S) -> Result<S::Ok, S::Error>"@,
    ) + line(depth, "    where"@) + line(depth, "        S: serde::Serializer,"@) + line(
        depth,
        "    {"@,
    )
}

/// The two braces that close the body of `serialize` and the impl.
pub open spec fn serialize_end_text(depth: nat) -> Seq<char> {
    line(depth, "    }"@) + line(depth, "}"@)
}

/// The opening of the `Deserialize` impl of `rust_type`, up to and including
/// the brace that opens the body of `deserialize`.
pub open spec fn deserialize_start_text(depth: nat, rust_type: Seq<char>) -> Seq<char> {
    line(depth, "impl<'de> serde::Deserialize<'de> for "@ + rust_type + " {"@) + line(
        depth,
        "    #[allow(deprecated)]"@,
    ) + line(
        depth,
        "    fn deserialize<D>(deserializer: D) -> Result<Self, D::Error>"@,
    ) + line(depth, "    where"@) + line(depth, "        D: serde::Deserializer<'de>,"@) + line(
        depth,
        "    {"@,
    )
}

/// The two braces that close the body of `deserialize` and the impl.
pub open spec fn deserialize_end_text(depth: nat) -> Seq<char> {
    line(depth, "    }"@) + line(depth, "}"@)
}

/// The three identity methods of the registration block: package name,
/// message name and type URL of `message`.
pub open spec fn wkt_identity_text(depth: nat, message: Message) -> Seq<char> {
    line(depth, "    fn package_name(&self) -> &'static str {"@) + line(
        depth,
        "        \""@ + message.path.package@ + "\""@,
    ) + line(depth, "    }"@) + line(depth, "    fn message_name(&self) -> &'static str {"@)
        + line(depth, "        \""@ + message.path.simple_name() + "\""@) + line(
        depth,
        "    }"@,
    ) + line(depth, "    fn type_url(&self) -> &'static str {"@) + line(
        depth,
        "        \""@ + message.type_url_text() + "\""@,
    ) + line(depth, "    }"@)
}

/// The three bridge methods of the registration block: a new instance from
/// encoded bytes, the encoding that cannot fail, and the one that can.
pub open spec fn wkt_bridge_text(depth: nat) -> Seq<char> {
    line(
        depth,
        "    fn new_instance(&self, data: Vec<u8>) -> Result<Box<dyn ::pbjson_any::prost_wkt::MessageSerde>, ::prost::DecodeError> {"@,
    ) + line(depth, "        let mut target = Self::default();"@) + line(
        depth,
        "        ::prost::Message::merge(&mut target, data.as_slice())?;"@,
    ) + line(
        depth,
        "        let erased: Box<dyn ::pbjson_any::prost_wkt::MessageSerde> = Box::new(target);"@,
    ) + line(depth, "        Ok(erased)"@) + line(depth, "    }"@) + line(
        depth,
        "    fn encoded(&self) -> Vec<u8> {"@,
    ) + line(depth, "        let mut buf = Vec::new();"@) + line(
        depth,
        "        buf.reserve(::prost::Message::encoded_len(self));"@,
    ) + line(
        depth,
        "        ::prost::Message::encode(self, &mut buf).expect(\"Failed to encode message\");"@,
    ) + line(depth, "        buf"@) + line(depth, "    }"@) + line(
        depth,
        "    fn try_encoded(&self) -> Result<Vec<u8>, ::prost::EncodeError> {"@,
    ) + line(depth, "        let mut buf = Vec::new();"@) + line(
        depth,
        "        buf.reserve(::prost::Message::encoded_len(self));"@,
    ) + line(depth, "        ::prost::Message::encode(self, &mut buf)?;"@) + line(
        depth,
        "        Ok(buf)"@,
    ) + line(depth, "    }"@)
}

/// The registration block of a well-known `message` generated as `rust_type`:
/// the attribute that registers the type under its type URL, then the impl
/// with the identity methods and the bridge methods.
pub open spec fn wkt_message_serde_text(depth: nat, message: Message, rust_type: Seq<char>) -> Seq<
    char,
> {
    line(depth, "#[::pbjson_any::typetag_serde(name = \""@ + message.type_url_text() + "\")]"@)
        + line(depth, "impl ::pbjson_any::prost_wkt::MessageSerde for "@ + rust_type + " {"@)
        + wkt_identity_text(depth, message) + wkt_bridge_text(depth) + line(depth, "}"@)
}

/// Appends the name table for `variants` to `writer`.
pub fn write_fields_array(writer: &mut String, indent: usize, variants: &Vec<String>)
    ensures
        final(writer)@ == old(writer)@ + fields_array_text(
            indent as nat,
            strings_view(variants@),
        ),
{
    let outer = Indent(indent).render();
    let mut inner = Indent(indent).render();
    inner.append("    ");
    proof {
        lemma_indent_step(indent as nat);
    }
    let ghost names = strings_view(variants@);
    let mut entries = String::new();
    let mut i: usize = 0;
    assert(entries@ =~= fields_entries_text(indent as nat + 1, names.take(0)));
    while i < variants.len()
        invariant
            i <= variants.len(),
            names == strings_view(variants@),
            inner@ == indent_text(indent as nat + 1),
            entries@ == fields_entries_text(indent as nat + 1, names.take(i as int)),
        decreases variants.len() - i,
    {
        let quoted = join3("\"", variants[i].as_str(), "\",");
        push_line(&mut entries, inner.as_str(), quoted.as_str());
        proof {
            let next = names.take(i + 1);
            assert(next.drop_last() =~= names.take(i as int));
            assert(next.last() == variants@[i as int]@);
        }
        i = i + 1;
    }
    assert(names.take(i as int) =~= names);
    let mut block = first_line(outer.as_str(), "const FIELDS: &[&str] = &[");
    block.append(entries.as_str());
    push_line(&mut block, outer.as_str(), "];");
    block.append("\n");
    writer.append(block.as_str());
}

/// Appends the opening of the `Serialize` impl of `rust_type` to `writer`.
pub fn write_serialize_start(indent: usize, rust_type: &str, writer: &mut String)
    ensures
        final(writer)@ == old(writer)@ + serialize_start_text(indent as nat, rust_type@),
{
    let ind = Indent(indent).render();
    let head = join3("impl serde::Serialize for ", rust_type, " {");
    let mut block = first_line(ind.as_str(), head.as_str());
    push_line(&mut block, ind.as_str(), "    #[allow(deprecated)]");
    push_line(
        &mut block,
        ind.as_str(),
        "    fn serialize<S>(&self, serializer: S) -> Result<S::Ok, S::Error>",
    );
    push_line(&mut block, ind.as_str(), "    where");
    push_line(&mut block, ind.as_str(), "        S: serde::Serializer,");
    push_line(&mut block, ind.as_str(), "    {");
    writer.append(block.as_str());
}

/// Appends the close of the `Serialize` impl to `writer`.
pub fn write_serialize_end(indent: usize, writer: &mut String)
    ensures
        final(writer)@ == old(writer)@ + serialize_end_text(indent as nat),
{
    let ind = Indent(indent).render();
    let mut block = first_line(ind.as_str(), "    }");
    push_line(&mut block, ind.as_str(), "}");
    writer.append(block.as_str());
}

/// Appends the opening of the `Deserialize` impl of `rust_type` to `writer`.
pub fn write_deserialize_start(indent: usize, rust_type: &str, writer: &mut String)
    ensures
        final(writer)@ == old(writer)@ + deserialize_start_text(indent as nat, rust_type@),
{
    let ind = Indent(indent).render();
    let head = join3("impl<'de> serde::Deserialize<'de> for ", rust_type, " {");
    let mut block = first_line(ind.as_str(), head.as_str());
    push_line(&mut block, ind.as_str(), "    #[allow(deprecated)]");
    push_line(
        &mut block,
        ind.as_str(),
        "    fn deserialize<D>(deserializer: D) -> Result<Self, D::Error>",
    );
    push_line(&mut block, ind.as_str(), "    where");
    push_line(&mut block, ind.as_str(), "        D: serde::Deserializer<'de>,");
    push_line(&mut block, ind.as_str(), "    {");
    writer.append(block.as_str());
}

/// Appends the close of the `Deserialize` impl to `writer`.
pub fn write_deserialize_end(indent: usize, writer: &mut String)
    ensures
        final(writer)@ == old(writer)@ + deserialize_end_text(indent as nat),
{
    let ind = Indent(indent).render();
    let mut block = first_line(ind.as_str(), "    }");
    push_line(&mut block, ind.as_str(), "}");
    writer.append(block.as_str());
}

/// The identity methods of the registration block of `message`.
fn wkt_identity(ind: &str, message: &Message) -> (block: String)
    requires
        message.path.wf(),
    ensures
        forall|depth: nat|
            ind@ == indent_text(depth) ==> block@ == wkt_identity_text(
                depth,
                *message,
            ),
{
    let package = join3("        \"", message.path.package(), "\"");
    let name = join3("        \"", message.path.name(), "\"");
    let url = message.type_url();
    let quoted_url = join3("        \"", url.as_str(), "\"");
    let mut block = first_line(ind, "    fn package_name(&self) -> &'static str {");
    push_line(&mut block, ind, package.as_str());
    push_line(&mut block, ind, "    }");
    push_line(&mut block, ind, "    fn message_name(&self) -> &'static str {");
    push_line(&mut block, ind, name.as_str());
    push_line(&mut block, ind, "    }");
    push_line(&mut block, ind, "    fn type_url(&self) -> &'static str {");
    push_line(&mut block, ind, quoted_url.as_str());
    push_line(&mut block, ind, "    }");
    block
}

/// The bridge methods of the registration block.
fn wkt_bridge(ind: &str) -> (block: String)
    ensures
        forall|depth: nat|
            ind@ == indent_text(depth) ==> block@ == wkt_bridge_text(depth),
{
    let mut block = first_line(
        ind,
        "    fn new_instance(&self, data: Vec<u8>) -> Result<Box<dyn ::pbjson_any::prost_wkt::MessageSerde>, ::prost::DecodeError> {",
    );
    push_line(&mut block, ind, "        let mut target = Self::default();");
    push_line(&mut block, ind, "        ::prost::Message::merge(&mut target, data.as_slice())?;");
    push_line(
        &mut block,
        ind,
        "        let erased: Box<dyn ::pbjson_any::prost_wkt::MessageSerde> = Box::new(target);",
    );
    push_line(&mut block, ind, "        Ok(erased)");
    push_line(&mut block, ind, "    }");
    push_line(&mut block, ind, "    fn encoded(&self) -> Vec<u8> {");
    push_line(&mut block, ind, "        let mut buf = Vec::new();");
    push_line(&mut block, ind, "        buf.reserve(::prost::Message::encoded_len(self));");
    push_line(
        &mut block,
        ind,
        "        ::prost::Message::encode(self, &mut buf).expect(\"Failed to encode message\");",
    );
    push_line(&mut block, ind, "        buf");
    push_line(&mut block, ind, "    }");
    push_line(
        &mut block,
        ind,
        "    fn try_encoded(&self) -> Result<Vec<u8>, ::prost::EncodeError> {",
    );
    push_line(&mut block, ind, "        let mut buf = Vec::new();");
    push_line(&mut block, ind, "        buf.reserve(::prost::Message::encoded_len(self));");
    push_line(&mut block, ind, "        ::prost::Message::encode(self, &mut buf)?;");
    push_line(&mut block, ind, "        Ok(buf)");
    push_line(&mut block, ind, "    }");
    block
}

/// Appends the registration block of the well-known `message`, generated as
/// `rust_type`, to `writer`.
pub fn write_wkt_message_serde(
    indent: usize,
    message: &Message,
    rust_type: &str,
    writer: &mut String,
)
    requires
        message.path.wf(),
    ensures
        final(writer)@ == old(writer)@ + wkt_message_serde_text(
            indent as nat,
            *message,
            rust_type@,
        ),
{
    let ind = Indent(indent).render();
    let url = message.type_url();
    let attribute = join3("#[::pbjson_any::typetag_serde(name = \"", url.as_str(), "\")]");
    let head = join3("impl ::pbjson_any::prost_wkt::MessageSerde for ", rust_type, " {");
    let identity = wkt_identity(ind.as_str(), message);
    let bridge = wkt_bridge(ind.as_str());
    let mut block = first_line(ind.as_str(), attribute.as_str());
    push_line(&mut block, ind.as_str(), head.as_str());
    block.append(identity.as_str());
    block.append(bridge.as_str());
    push_line(&mut block, ind.as_str(), "}");
    writer.append(block.as_str());
}

} // verus!
