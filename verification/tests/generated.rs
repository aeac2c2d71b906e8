use pbjson_build::descriptor::{
    Cardinality, EnumDescriptor, EnumVariantDescriptor, FieldDescriptor, FieldType, Message,
    TypePath,
};
use pbjson_build::generator::enumeration::{generate_enum, variant_is_canonical};
use pbjson_build::generator::message::{
    conversion, generate_message, generate_type, has_wide_field, names_cover, presence,
    Conversion, Presence,
};
use pbjson_build::generator::write_wkt_message_serde;

const ENUM_TEXT: &str = r##"impl Color {
    const FIELDS: &[&str] = &[
        "RED",
        "CRIMSON",
        "BLUE",
        "NONE",
    ];

    /// The JSON string of a discriminant.
    pub fn json_name(number: i32) -> std::borrow::Cow<'static, str> {
        match number {
            0 => std::borrow::Cow::Borrowed("RED"),
            1 => std::borrow::Cow::Borrowed("BLUE"),
            -1 => std::borrow::Cow::Borrowed("NONE"),
            other => std::borrow::Cow::Owned(other.to_string()),
        }
    }

    /// The discriminant that a JSON string stands for.
    pub fn from_json_name(value: &str) -> Option<i32> {
        match value {
            "RED" => Some(0),
            "CRIMSON" => Some(0),
            "BLUE" => Some(1),
            "NONE" => Some(-1),
            other => other.parse::<i32>().ok().filter(|number| Self::declares(*number)),
        }
    }

    /// Whether a variant has the discriminant.
    pub fn declares(number: i32) -> bool {
        match number {
            0 => true,
            1 => true,
            -1 => true,
            _ => false,
        }
    }
}
impl serde::Serialize for Color {
    #[allow(deprecated)]
    fn serialize<S>(&self, serializer: S) -> Result<S::Ok, S::Error>
    where
        S: serde::Serializer,
    {
        serializer.serialize_str(&Self::json_name(*self as i32))
    }
}
impl<'de> serde::Deserialize<'de> for Color {
    #[allow(deprecated)]
    fn deserialize<D>(deserializer: D) -> Result<Self, D::Error>
    where
        D: serde::Deserializer<'de>,
    {
        struct GeneratedVisitor;

        impl<'de> serde::de::Visitor<'de> for GeneratedVisitor {
            type Value = Color;

            fn expecting(&self, formatter: &mut std::fmt::Formatter<'_>) -> std::fmt::Result {
                formatter.write_str("one of: ")?;
                formatter.debug_list().entries(Color::FIELDS.iter()).finish()
            }

            fn visit_i64<E>(self, v: i64) -> std::result::Result<Self::Value, E>
            where
                E: serde::de::Error,
            {
                i32::try_from(v)
                    .ok()
                    .filter(|number| Color::declares(*number))
                    .and_then(|number| Color::try_from(number).ok())
                    .ok_or_else(|| serde::de::Error::invalid_value(serde::de::Unexpected::Signed(v), &self))
            }

            fn visit_u64<E>(self, v: u64) -> std::result::Result<Self::Value, E>
            where
                E: serde::de::Error,
            {
                i32::try_from(v)
                    .ok()
                    .filter(|number| Color::declares(*number))
                    .and_then(|number| Color::try_from(number).ok())
                    .ok_or_else(|| serde::de::Error::invalid_value(serde::de::Unexpected::Unsigned(v), &self))
            }

            fn visit_str<E>(self, value: &str) -> std::result::Result<Self::Value, E>
            where
                E: serde::de::Error,
            {
                Color::from_json_name(value)
                    .and_then(|number| Color::try_from(number).ok())
                    .ok_or_else(|| serde::de::Error::unknown_variant(value, Color::FIELDS))
            }
        }
        deserializer.deserialize_any(GeneratedVisitor)
    }
}
"##;

const MESSAGE_TEXT: &str = r##"impl serde::Serialize for Account {
    #[allow(deprecated)]
    fn serialize<S>(&self, serializer: S) -> Result<S::Ok, S::Error>
    where
        S: serde::Serializer,
    {
        let mut map = serializer.serialize_map(None)?;
        if !self.name.is_empty() {
            serde::ser::SerializeMap::serialize_entry(&mut map, "name", &self.name)?;
        }
        if self.user_id != 0 {
            serde::ser::SerializeMap::serialize_entry(&mut map, "userId", &self.user_id.to_string())?;
        }
        if self.active {
            serde::ser::SerializeMap::serialize_entry(&mut map, "active", &self.active)?;
        }
        if self.color != 0 {
            serde::ser::SerializeMap::serialize_entry(&mut map, "color", &Color::json_name(self.color))?;
        }
        if let Some(v) = self.owner.as_ref() {
            serde::ser::SerializeMap::serialize_entry(&mut map, "owner", v)?;
        }
        if let Some(v) = self.maybe_total.as_ref() {
            serde::ser::SerializeMap::serialize_entry(&mut map, "maybeTotal", &v.to_string())?;
        }
        if !self.shades.is_empty() {
            serde::ser::SerializeMap::serialize_entry(&mut map, "shades", &self.shades.iter().map(|v| Color::json_name(*v)).collect::<Vec<_>>())?;
        }
        if true {
            serde::ser::SerializeMap::serialize_entry(&mut map, "tags", &self.tags)?;
        }
        if !self.totals.is_empty() {
            serde::ser::SerializeMap::serialize_entry(&mut map, "totals", &self.totals.iter().map(|(k, v)| (k, v.to_string())).collect::<std::collections::BTreeMap<_, _>>())?;
        }
        if let Some(v) = self.by_name.as_ref() {
            serde::ser::SerializeMap::serialize_entry(&mut map, "byName", v)?;
        }
        if let Some(v) = self.by_color.as_ref() {
            serde::ser::SerializeMap::serialize_entry(&mut map, "byColor", &Color::json_name(*v))?;
        }
        serde::ser::SerializeMap::end(map)
    }
}
impl<'de> serde::Deserialize<'de> for Account {
    #[allow(deprecated)]
    fn deserialize<D>(deserializer: D) -> Result<Self, D::Error>
    where
        D: serde::Deserializer<'de>,
    {
        const FIELDS: &[&str] = &[
            "name",
            "userId",
            "user_id",
            "active",
            "color",
            "owner",
            "maybeTotal",
            "maybe_total",
            "shades",
            "tags",
            "totals",
            "byName",
            "by_name",
            "byColor",
            "by_color",
        ];

        struct Wide<T>(T);

        impl<'de, T: TryFrom<i128>> serde::Deserialize<'de> for Wide<T> {
            fn deserialize<D>(deserializer: D) -> Result<Self, D::Error>
            where
                D: serde::Deserializer<'de>,
            {
                struct WideVisitor<T>(std::marker::PhantomData<T>);

                impl<'de, T: TryFrom<i128>> serde::de::Visitor<'de> for WideVisitor<T> {
                    type Value = Wide<T>;

                    fn expecting(&self, formatter: &mut std::fmt::Formatter<'_>) -> std::fmt::Result {
                        formatter.write_str("an integer or a string that spells one")
                    }

                    fn visit_i64<E>(self, v: i64) -> std::result::Result<Self::Value, E>
                    where
                        E: serde::de::Error,
                    {
                        T::try_from(v as i128)
                            .map(Wide)
                            .map_err(|_| serde::de::Error::invalid_value(serde::de::Unexpected::Signed(v), &self))
                    }

                    fn visit_u64<E>(self, v: u64) -> std::result::Result<Self::Value, E>
                    where
                        E: serde::de::Error,
                    {
                        T::try_from(v as i128)
                            .map(Wide)
                            .map_err(|_| serde::de::Error::invalid_value(serde::de::Unexpected::Unsigned(v), &self))
                    }

                    fn visit_str<E>(self, value: &str) -> std::result::Result<Self::Value, E>
                    where
                        E: serde::de::Error,
                    {
                        value
                            .parse::<i128>()
                            .ok()
                            .and_then(|number| T::try_from(number).ok())
                            .map(Wide)
                            .ok_or_else(|| serde::de::Error::invalid_value(serde::de::Unexpected::Str(value), &self))
                    }
                }
                deserializer.deserialize_any(WideVisitor(std::marker::PhantomData))
            }
        }

        struct GeneratedVisitor;

        impl<'de> serde::de::Visitor<'de> for GeneratedVisitor {
            type Value = Account;

            fn expecting(&self, formatter: &mut std::fmt::Formatter<'_>) -> std::fmt::Result {
                formatter.write_str("struct test.v1.Account")
            }

            fn visit_map<V>(self, mut map: V) -> std::result::Result<Self::Value, V::Error>
            where
                V: serde::de::MapAccess<'de>,
            {
                let mut message = Account::default();
                while let Some(key) = map.next_key::<String>()? {
                    match key.as_str() {
                        "name" => {
                            message.name = map.next_value::<Option<_>>()?.unwrap_or_default();
                        }
                        "userId" | "user_id" => {
                            message.user_id = map.next_value::<Option<Wide<_>>>()?.map(|x| x.0).unwrap_or_default();
                        }
                        "active" => {
                            message.active = map.next_value::<Option<_>>()?.unwrap_or_default();
                        }
                        "color" => {
                            message.color = map.next_value::<Option<Color>>()?.map(|x| x as i32).unwrap_or_default();
                        }
                        "owner" => {
                            message.owner = map.next_value::<Option<_>>()?;
                        }
                        "maybeTotal" | "maybe_total" => {
                            message.maybe_total = map.next_value::<Option<Wide<_>>>()?.map(|x| x.0);
                        }
                        "shades" => {
                            message.shades = map.next_value::<Option<Vec<Color>>>()?.unwrap_or_default().into_iter().map(|x| x as i32).collect();
                        }
                        "tags" => {
                            message.tags = map.next_value::<Option<Vec<_>>>()?.unwrap_or_default();
                        }
                        "totals" => {
                            message.totals = map.next_value::<Option<std::collections::BTreeMap<String, Wide<_>>>>()?.unwrap_or_default().into_iter().map(|(k, v)| (k, v.0)).collect();
                        }
                        "byName" | "by_name" => {
                            message.by_name = map.next_value::<Option<_>>()?;
                            if message.by_name.is_some() {
                                message.by_color = None;
                            }
                        }
                        "byColor" | "by_color" => {
                            message.by_color = map.next_value::<Option<Color>>()?.map(|x| x as i32);
                            if message.by_color.is_some() {
                                message.by_name = None;
                            }
                        }
                        _ => {
                            map.next_value::<serde::de::IgnoredAny>()?;
                        }
                    }
                }
                Ok(message)
            }
        }
        deserializer.deserialize_struct("test.v1.Account", FIELDS, GeneratedVisitor)
    }
}
"##;

fn variant(name: &str, number: i32) -> EnumVariantDescriptor {
    EnumVariantDescriptor {
        name: name.to_string(),
        number,
    }
}

fn field(name: &str, json_name: &str, field_type: FieldType) -> FieldDescriptor {
    FieldDescriptor {
        name: name.to_string(),
        json_name: json_name.to_string(),
        field_type,
        cardinality: Cardinality::Singular,
        oneof: None,
        elide_default: true,
    }
}

#[test]
fn enum_text_is_exact() {
    let color = EnumDescriptor {
        variants: vec![variant("RED", 0), variant("CRIMSON", 0), variant("BLUE", 1), variant("NONE", -1)],
    };
    let mut out = String::new();
    generate_enum(&color, "Color", &mut out);
    assert_eq!(out, ENUM_TEXT);
}

#[test]
fn message_text_is_exact() {
    let message = Message {
        path: TypePath::new("test.v1".to_string(), vec!["Account".to_string()]),
        fields: vec![
            field("name", "name", FieldType::String),
            field("user_id", "userId", FieldType::Int64),
            field("active", "active", FieldType::Bool),
            field("color", "color", FieldType::Enum(0)),
            FieldDescriptor {
                elide_default: false,
                ..field("owner", "owner", FieldType::Message(0))
            },
            FieldDescriptor {
                elide_default: false,
                ..field("maybe_total", "maybeTotal", FieldType::Uint64)
            },
            FieldDescriptor {
                cardinality: Cardinality::Repeated,
                ..field("shades", "shades", FieldType::Enum(0))
            },
            FieldDescriptor {
                cardinality: Cardinality::Repeated,
                elide_default: false,
                ..field("tags", "tags", FieldType::String)
            },
            FieldDescriptor {
                cardinality: Cardinality::Mapped,
                ..field("totals", "totals", FieldType::Uint64)
            },
            FieldDescriptor {
                oneof: Some(0),
                elide_default: false,
                ..field("by_name", "byName", FieldType::String)
            },
            FieldDescriptor {
                oneof: Some(0),
                elide_default: false,
                ..field("by_color", "byColor", FieldType::Enum(0))
            },
        ],
        well_known: false,
    };
    let mut out = String::new();
    generate_message(&message, "Account", &vec!["Color".to_string()], &mut out);
    assert_eq!(out, MESSAGE_TEXT);
}

fn plain_message(fields: Vec<FieldDescriptor>, well_known: bool) -> Message {
    Message {
        path: TypePath::new("test.v1".to_string(), vec!["Outer".to_string(), "Note".to_string()]),
        fields,
        well_known,
    }
}

#[test]
fn enum_without_variants() {
    let empty = EnumDescriptor { variants: Vec::new() };
    let mut out = String::from("// head\n");
    generate_enum(&empty, "outer::Nothing", &mut out);
    assert!(out.starts_with("// head\nimpl outer::Nothing {\n    const FIELDS: &[&str] = &[\n    ];\n\n"));
    assert!(out.contains(
        "        match number {\n            other => std::borrow::Cow::Owned(other.to_string()),\n        }\n"
    ));
    assert!(out.contains("        match number {\n            _ => false,\n        }\n"));
    assert!(out.contains("            type Value = outer::Nothing;\n"));
    assert!(out.ends_with("        deserializer.deserialize_any(GeneratedVisitor)\n    }\n}\n"));
}

#[test]
fn aliases_get_a_decode_arm_and_no_encode_arm() {
    let color = EnumDescriptor {
        variants: vec![variant("BLUE", 1), variant("RED", 0), variant("AZURE", 1), variant("CRIMSON", 0)],
    };
    let mut out = String::new();
    generate_enum(&color, "Color", &mut out);
    assert!(out.contains(
        "            1 => std::borrow::Cow::Borrowed(\"BLUE\"),\n            0 => std::borrow::Cow::Borrowed(\"RED\"),\n            other =>"
    ));
    assert!(!out.contains("Borrowed(\"AZURE\")"));
    assert!(!out.contains("Borrowed(\"CRIMSON\")"));
    assert!(out.contains(
        "            \"BLUE\" => Some(1),\n            \"RED\" => Some(0),\n            \"AZURE\" => Some(1),\n            \"CRIMSON\" => Some(0),\n            other =>"
    ));
    assert!(out.contains("            1 => true,\n            0 => true,\n            _ => false,\n"));
    assert!(variant_is_canonical(&color, 0));
    assert!(variant_is_canonical(&color, 1));
    assert!(!variant_is_canonical(&color, 2));
    assert!(!variant_is_canonical(&color, 3));
}

#[test]
fn message_without_fields() {
    let mut out = String::new();
    generate_message(&plain_message(Vec::new(), false), "outer::Note", &Vec::new(), &mut out);
    let expected = r##"impl serde::Serialize for outer::Note {
    #[allow(deprecated)]
    fn serialize<S>(&self, serializer: S) -> Result<S::Ok, S::Error>
    where
        S: serde::Serializer,
    {
        let mut map = serializer.serialize_map(None)?;
        serde::ser::SerializeMap::end(map)
    }
}
impl<'de> serde::Deserialize<'de> for outer::Note {
    #[allow(deprecated)]
    fn deserialize<D>(deserializer: D) -> Result<Self, D::Error>
    where
        D: serde::Deserializer<'de>,
    {
        const FIELDS: &[&str] = &[
        ];

        struct GeneratedVisitor;

        impl<'de> serde::de::Visitor<'de> for GeneratedVisitor {
            type Value = outer::Note;

            fn expecting(&self, formatter: &mut std::fmt::Formatter<'_>) -> std::fmt::Result {
                formatter.write_str("struct test.v1.Outer.Note")
            }

            fn visit_map<V>(self, mut map: V) -> std::result::Result<Self::Value, V::Error>
            where
                V: serde::de::MapAccess<'de>,
            {
                let mut message = outer::Note::default();
                while let Some(key) = map.next_key::<String>()? {
                    match key.as_str() {
                        _ => {
                            map.next_value::<serde::de::IgnoredAny>()?;
                        }
                    }
                }
                Ok(message)
            }
        }
        deserializer.deserialize_struct("test.v1.Outer.Note", FIELDS, GeneratedVisitor)
    }
}
"##;
    assert_eq!(out, expected);
}

#[test]
fn user_id_is_written_as_user_id_in_camel_case_and_read_under_both_names() {
    let message = plain_message(vec![field("user_id", "userId", FieldType::Int32)], false);
    let mut out = String::new();
    generate_message(&message, "Note", &Vec::new(), &mut out);
    assert!(out.contains(
        "            serde::ser::SerializeMap::serialize_entry(&mut map, \"userId\", &self.user_id)?;\n"
    ));
    assert!(!out.contains("serialize_entry(&mut map, \"user_id\""));
    assert!(out.contains("                        \"userId\" | \"user_id\" => {\n"));
    assert!(out.contains("            \"userId\",\n            \"user_id\",\n        ];\n"));
}

#[test]
fn every_kind_of_field_is_classified() {
    let implicit = field("a", "a", FieldType::Int32);
    let explicit = FieldDescriptor { elide_default: false, ..field("a", "a", FieldType::Int32) };
    let nested = field("a", "a", FieldType::Message(3));
    let list = FieldDescriptor { cardinality: Cardinality::Repeated, ..field("a", "a", FieldType::Bool) };
    let table = FieldDescriptor { cardinality: Cardinality::Mapped, ..field("a", "a", FieldType::Bool) };
    assert_eq!(presence(&implicit), Presence::Implicit);
    assert_eq!(presence(&explicit), Presence::Explicit);
    assert_eq!(presence(&nested), Presence::Explicit);
    assert_eq!(presence(&list), Presence::Repeated);
    assert_eq!(presence(&table), Presence::Mapped);
    assert_eq!(conversion(FieldType::Bool), Conversion::Plain);
    assert_eq!(conversion(FieldType::Int32), Conversion::Plain);
    assert_eq!(conversion(FieldType::Uint32), Conversion::Plain);
    assert_eq!(conversion(FieldType::String), Conversion::Plain);
    assert_eq!(conversion(FieldType::Message(1)), Conversion::Plain);
    assert_eq!(conversion(FieldType::Int64), Conversion::Wide);
    assert_eq!(conversion(FieldType::Uint64), Conversion::Wide);
    assert_eq!(conversion(FieldType::Enum(4)), Conversion::Named(4));
}

#[test]
fn the_helper_for_64_bit_integers_is_written_where_one_is_needed() {
    let narrow = plain_message(vec![field("a", "a", FieldType::Int32)], false);
    let wide = plain_message(
        vec![
            field("a", "a", FieldType::Int32),
            FieldDescriptor {
                cardinality: Cardinality::Repeated,
                ..field("b", "b", FieldType::Uint64)
            },
        ],
        false,
    );
    assert!(!has_wide_field(&narrow.fields));
    assert!(has_wide_field(&wide.fields));
    let mut out = String::new();
    generate_message(&narrow, "Note", &Vec::new(), &mut out);
    assert!(!out.contains("Wide"));
    let mut out = String::new();
    generate_message(&wide, "Note", &Vec::new(), &mut out);
    assert!(out.contains("        ];\n\n        struct Wide<T>(T);\n\n        impl<'de, T: TryFrom<i128>>"));
    assert!(out.contains(
        "                deserializer.deserialize_any(WideVisitor(std::marker::PhantomData))\n            }\n        }\n\n        struct GeneratedVisitor;\n"
    ));
    assert!(out.contains("map.next_value::<Option<Vec<Wide<_>>>>()?.unwrap_or_default().into_iter().map(|x| x.0).collect();"));
}

#[test]
fn names_cover_tells_whether_every_enum_has_a_name() {
    let message = plain_message(
        vec![
            field("a", "a", FieldType::Enum(0)),
            field("b", "b", FieldType::Int32),
            field("c", "c", FieldType::Enum(1)),
        ],
        false,
    );
    assert!(!names_cover(&message, &Vec::new()));
    assert!(!names_cover(&message, &vec!["A".to_string()]));
    assert!(names_cover(&message, &vec!["A".to_string(), "B".to_string()]));
    assert!(names_cover(&plain_message(Vec::new(), false), &Vec::new()));
}

#[test]
fn a_well_known_type_gets_its_registration_block() {
    let fields = vec![field("text", "text", FieldType::String)];
    let mut plain = String::new();
    generate_message(&plain_message(fields.clone(), true), "Note", &Vec::new(), &mut plain);
    let mut registration = String::new();
    write_wkt_message_serde(0, &plain_message(fields.clone(), true), "Note", &mut registration);
    assert!(registration.starts_with(
        "#[::pbjson_any::typetag_serde(name = \"type.googleapis.com/test.v1.Outer.Note\")]\n"
    ));

    let mut known = String::from("// head\n");
    generate_type(&plain_message(fields.clone(), true), "Note", &Vec::new(), &mut known);
    assert_eq!(known, format!("// head\n{}{}", plain, registration));

    let mut unknown = String::new();
    generate_type(&plain_message(fields, false), "Note", &Vec::new(), &mut unknown);
    assert_eq!(unknown, plain);
}
