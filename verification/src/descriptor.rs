//! The schema descriptors that generation reads.

use vstd::prelude::*;
use crate::search::first_match;
use crate::text::strings_view;

verus! {

/// `prefix` followed by each of `segments`, every segment preceded by a dot.
pub open spec fn dotted(prefix: Seq<char>, segments: Seq<Seq<char>>) -> Seq<char>
    decreases segments.len(),
{
    if segments.len() == 0 {
        prefix
    } else {
        dotted(prefix, segments.drop_last()) + "."@ + segments.last()
    }
}

/// Where a type lives: its package and the chain of names that leads to it,
/// outermost first.
#[derive(Debug, Clone)]
pub struct TypePath {
    pub package: String,
    pub path: Vec<String>,
}

impl TypePath {
    /// A path names a type only if it has at least one segment; the last
    /// segment is the type's simple name.
    pub open spec fn wf(&self) -> bool {
        self.path@.len() > 0
    }

    /// The name segments as character sequences.
    pub open spec fn segments(&self) -> Seq<Seq<char>> {
        strings_view(self.path@)
    }

    /// The simple name of the type: the last segment.
    pub open spec fn simple_name(&self) -> Seq<char>
        recommends
            self.wf(),
    {
        self.segments().last()
    }

    /// The package-qualified dotted name: the package, then each segment
    /// after a dot.
    pub open spec fn full_name(&self) -> Seq<char> {
        dotted(self.package@, self.segments())
    }

    /// The path of the type that `path` leads to in `package`.
    pub fn new(package: String, path: Vec<String>) -> (type_path: TypePath)
        ensures
            type_path.package@ == package@,
            type_path.path@ == path@,
    {
        TypePath { package, path }
    }

    /// The package that the type lives in.
    pub fn package(&self) -> (package: &str)
        ensures
            package@ == self.package@,
    {
        self.package.as_str()
    }

    /// The chain of names that leads to the type, outermost first.
    pub fn path(&self) -> (path: &Vec<String>)
        ensures
            path@ == self.path@,
    {
        &self.path
    }

    /// The simple name of the type.
    pub fn name(&self) -> (name: &str)
        requires
            self.wf(),
        ensures
            name@ == self.simple_name(),
    {
        self.path[self.path.len() - 1].as_str()
    }

    /// The package-qualified dotted name as a string.
    pub fn dotted_name(&self) -> (name: String)
        ensures
            name@ == self.full_name(),
    {
        let mut name = self.package.clone();
        let mut i: usize = 0;
        while i < self.path.len()
            invariant
                i <= self.path.len(),
                name@ == dotted(self.package@, self.segments().take(i as int)),
            decreases self.path.len() - i,
        {
            name.append(".");
            name.append(self.path[i].as_str());
            proof {
                let next = self.segments().take(i + 1);
                assert(next.drop_last() =~= self.segments().take(i as int));
                assert(next.last() == self.path@[i as int]@);
            }
            i = i + 1;
        }
        assert(self.segments().take(i as int) =~= self.segments());
        name
    }
}

/// One variant of an enum: its name and its numeric discriminant.
#[derive(Debug, Clone)]
pub struct EnumVariantDescriptor {
    pub name: String,
    pub number: i32,
}

/// An enum type: its variants in declaration order. Several variants may
/// share a discriminant; the later ones are aliases of the first.
#[derive(Debug, Clone)]
pub struct EnumDescriptor {
    pub variants: Vec<EnumVariantDescriptor>,
}

/// The declared type of a field. An enum or a message type is named by its
/// position in the schema.
#[derive(Debug, Clone, Copy, PartialEq, Eq, Structural)]
pub enum FieldType {
    Bool,
    Int32,
    Int64,
    Uint32,
    Uint64,
    String,
    Enum(usize),
    Message(usize),
}

/// How many values a field holds.
#[derive(Debug, Clone, Copy, PartialEq, Eq, Structural)]
pub enum Cardinality {
    Singular,
    Repeated,
    Mapped,
}

/// One field of a message.
#[derive(Debug, Clone)]
pub struct FieldDescriptor {
    /// The name as the schema spells it.
    pub name: String,
    /// The canonical JSON name: the key under which the field is written.
    pub json_name: String,
    pub field_type: FieldType,
    pub cardinality: Cardinality,
    /// The oneof group that the field is a member of, if any.
    pub oneof: Option<usize>,
    /// Whether a value equal to the type's default stands for absence and is
    /// left out of the output.
    pub elide_default: bool,
}

/// The fields that the JSON key `key` names: those whose canonical name or
/// whose schema name it is.
pub open spec fn answers_to(key: Seq<char>) -> spec_fn(FieldDescriptor) -> bool {
    |field: FieldDescriptor| field.json_name@ == key || field.name@ == key
}

/// A message type: where it lives and its fields in declaration order.
#[derive(Debug, Clone)]
pub struct Message {
    pub path: TypePath,
    pub fields: Vec<FieldDescriptor>,
    /// Whether the type registers itself for recovery by its type URL.
    pub well_known: bool,
}

/// The literal that every canonical type URL starts with.
pub open spec fn type_url_prefix() -> Seq<char> {
    "type.googleapis.com/"@
}

impl Message {
    /// The field that the JSON key `key` names: the first, in declaration
    /// order, whose canonical name or schema name it is.
    pub open spec fn field_index(&self, key: Seq<char>) -> Option<int> {
        first_match(self.fields@, answers_to(key))
    }

    /// No JSON key names two fields, and every member of a oneof group is a
    /// singular field that is present only when it was set.
    pub open spec fn wf(&self) -> bool {
        &&& forall|i: int, j: int|
            0 <= i < self.fields@.len() && 0 <= j < self.fields@.len() && i != j ==> {
                &&& self.fields@[i].json_name@ != self.fields@[j].json_name@
                &&& self.fields@[i].json_name@ != self.fields@[j].name@
                &&& self.fields@[i].name@ != self.fields@[j].name@
            }
        &&& forall|i: int|
            0 <= i < self.fields@.len() && (#[trigger] self.fields@[i]).oneof is Some ==> {
                &&& self.fields@[i].cardinality == Cardinality::Singular
                &&& !self.fields@[i].elide_default
            }
    }

    /// The canonical type URL: the fixed prefix, then the package-qualified
    /// dotted name.
    pub open spec fn type_url_text(&self) -> Seq<char> {
        type_url_prefix() + self.path.full_name()
    }

    /// The canonical type URL as a string.
    pub fn type_url(&self) -> (url: String)
        ensures
            url@ == self.type_url_text(),
    {
        let name = self.path.dotted_name();
        let mut url = String::from_str("type.googleapis.com/");
        url.append(name.as_str());
        url
    }
}

/// The enum and message types of one generation pass. Field types refer to
/// them by position.
#[derive(Debug, Clone)]
pub struct Schema {
    pub enums: Vec<EnumDescriptor>,
    pub messages: Vec<Message>,
}

impl Schema {
    /// Every enum and every message of the schema is well formed.
    pub open spec fn wf(&self) -> bool {
        &&& forall|e: int| 0 <= e < self.enums@.len() ==> (#[trigger] self.enums@[e]).wf()
        &&& forall|m: int| 0 <= m < self.messages@.len() ==> (#[trigger] self.messages@[m]).wf()
    }
}

} // verus!
