//! The schema model: a tree that describes the shape of a type.

use vstd::prelude::*;

verus! {

/// An example attached to a schema node.
#[derive(Clone, Copy, Debug)]
pub enum Example {
    /// One value; the printer of the node's kind decides how it is written.
    Simple(&'static str),
    /// Several candidate values; the first one is shown.
    Compound(&'static [&'static str]),
    /// Text that stands for the whole node and is written as it is.
    Literal(&'static str),
}

impl Example {
    /// The first value this example offers.
    pub open spec fn spec_first(self) -> Option<&'static str> {
        match self {
            Example::Simple(e) => Some(e),
            Example::Compound(es) => if es@.len() > 0 {
                Some(es@[0])
            } else {
                None
            },
            Example::Literal(e) => Some(e),
        }
    }

    /// The first value this example offers; a compound example without
    /// candidates offers none.
    #[verifier::when_used_as_spec(spec_first)]
    pub fn first(self) -> (r: Option<&'static str>)
        ensures
            r == self.spec_first(),
    {
        match self {
            Example::Simple(e) => Some(e),
            Example::Compound(es) => if es.len() > 0 {
                Some(es[0])
            } else {
                None
            },
            Example::Literal(e) => Some(e),
        }
    }

    /// The text of a literal example.
    pub open spec fn spec_literal(self) -> Option<&'static str> {
        match self {
            Example::Literal(e) => Some(e),
            _ => None,
        }
    }

    /// The text of a literal example; other examples have none.
    #[verifier::when_used_as_spec(spec_literal)]
    pub fn literal(self) -> (r: Option<&'static str>)
        ensures
            r == self.spec_literal(),
    {
        match self {
            Example::Literal(e) => Some(e),
            _ => None,
        }
    }
}

/// How an enum tells which variant a payload belongs to.
#[derive(Clone, Copy, Debug)]
pub enum Tag {
    /// No discriminator at all.
    Untagged,
    /// The variant's name wraps the payload.
    External,
    /// A field named `tag` stands beside the payload's own fields.
    Internal { tag: &'static str },
    /// A field named `tag` and a field named `content` stand side by side.
    Adjacent { tag: &'static str, content: &'static str },
}

/// The four tag strategies, without the names they carry.
#[derive(Clone, Copy, Debug, PartialEq, Eq, Structural)]
pub enum TagKind {
    Untagged,
    External,
    Internal,
    Adjacent,
}

impl Tag {
    pub open spec fn spec_kind(self) -> TagKind {
        match self {
            Tag::Untagged => TagKind::Untagged,
            Tag::External => TagKind::External,
            Tag::Internal { .. } => TagKind::Internal,
            Tag::Adjacent { .. } => TagKind::Adjacent,
        }
    }

    /// The strategy of this tag.
    #[verifier::when_used_as_spec(spec_kind)]
    pub fn kind(self) -> (r: TagKind)
        ensures
            r == self.spec_kind(),
    {
        match self {
            Tag::Untagged => TagKind::Untagged,
            Tag::External => TagKind::External,
            Tag::Internal { .. } => TagKind::Internal,
            Tag::Adjacent { .. } => TagKind::Adjacent,
        }
    }
}

impl TagKind {
    /// The strategy that a declaration asks for. `untagged` wins when it is
    /// set and true. Otherwise a content name together with a tag name asks
    /// for adjacent tagging and a tag name alone for internal tagging; with
    /// neither, or with a content name alone, the default applies.
    pub open spec fn spec_declared(untagged: Option<bool>, content: bool, tag: bool) -> TagKind {
        if untagged == Some(true) {
            TagKind::Untagged
        } else if content && tag {
            TagKind::Adjacent
        } else if tag {
            TagKind::Internal
        } else {
            TagKind::External
        }
    }

    /// The strategy that a declaration asks for, from whether it is marked
    /// untagged and whether it names a content field and a tag field.
    #[verifier::when_used_as_spec(spec_declared)]
    pub fn declared(untagged: Option<bool>, content: bool, tag: bool) -> (r: TagKind)
        ensures
            r == TagKind::spec_declared(untagged, content, tag),
    {
        let plain = match untagged {
            Some(u) => u,
            None => false,
        };
        if plain {
            TagKind::Untagged
        } else {
            match (content, tag) {
                (true, true) => TagKind::Adjacent,
                (true, false) => TagKind::External,
                (false, true) => TagKind::Internal,
                (false, false) => TagKind::External,
            }
        }
    }
}

/// Which nodes a rendering shows.
#[derive(Clone, Copy, Debug, PartialEq, Eq, Structural)]
pub enum Visibility {
    /// Nodes that are written out or read in.
    SerializableAndDeserializable,
    /// Only nodes that are written out.
    SerializableOnly,
    /// Only nodes that are read in.
    DeserializableOnly,
}

impl Visibility {
    pub open spec fn spec_allows(self, serializable: bool, deserializable: bool) -> bool {
        match self {
            Visibility::SerializableAndDeserializable => serializable || deserializable,
            Visibility::SerializableOnly => serializable,
            Visibility::DeserializableOnly => deserializable,
        }
    }

    /// Whether a node with these two flags is shown.
    #[verifier::when_used_as_spec(spec_allows)]
    pub fn allows(self, serializable: bool, deserializable: bool) -> (r: bool)
        ensures
            r == self.spec_allows(serializable, deserializable),
    {
        match self {
            Visibility::SerializableAndDeserializable => serializable || deserializable,
            Visibility::SerializableOnly => serializable,
            Visibility::DeserializableOnly => deserializable,
        }
    }
}

/// The value of a free-form annotation.
#[derive(Clone, Copy, Debug)]
pub enum MetaValue {
    Bool(bool),
    Integer(usize),
    Text(&'static str),
}

/// A free-form annotation of a schema node.
#[derive(Clone, Copy, Debug)]
pub struct Meta {
    pub key: &'static str,
    pub value: MetaValue,
}

/// A named field of a struct.
#[derive(Debug)]
pub struct Field {
    pub name: &'static str,
    pub ty: Type,
    /// The fields of `ty` take this field's place in the enclosing struct.
    pub flattened: bool,
}

/// A variant of an enum.
#[derive(Debug)]
pub struct Variant {
    pub name: &'static str,
    pub payload: Type,
}

/// What kind of type a schema node describes.
#[derive(Debug)]
#[allow(inconsistent_fields)]
pub enum TypeKind {
    Bool,
    Float,
    Integer,
    String,
    Array { ty: Box<Type>, size: Option<usize> },
    Enum { tag: Tag, variants: Vec<Variant> },
    Struct { fields: Vec<Field>, transparent: bool },
    Tuple { fields: Vec<Type> },
    Mapping { key: Box<Type>, value: Box<Type> },
    Optional { ty: Box<Type> },
}

/// A schema node.
#[derive(Debug)]
pub struct Type {
    pub comment: Option<&'static str>,
    pub example: Option<Example>,
    pub metas: Vec<Meta>,
    pub serializable: bool,
    pub deserializable: bool,
    pub kind: TypeKind,
}

impl Type {
    /// A node of the given kind that is written out and read in, without
    /// comment, example or annotations.
    pub fn new(kind: TypeKind) -> (r: Type)
        ensures
            r.kind == kind,
            r.comment is None,
            r.example is None,
            r.metas@.len() == 0,
            r.serializable,
            r.deserializable,
    {
        Type {
            comment: None,
            example: None,
            metas: Vec::new(),
            serializable: true,
            deserializable: true,
            kind,
        }
    }

    /// A struct that hands everything on to its first field.
    pub open spec fn is_transparent(&self) -> bool {
        match self.kind {
            TypeKind::Struct { transparent, .. } => transparent,
            _ => false,
        }
    }

    /// A struct that has fields of its own to show.
    pub open spec fn is_field_bearing(&self) -> bool {
        match self.kind {
            TypeKind::Struct { transparent, .. } => !transparent,
            _ => false,
        }
    }
}

/// A named part of a struct value.
#[derive(Debug)]
pub struct Entry {
    pub name: &'static str,
    pub value: Value,
}

/// The shape of a sample value, as far as it steers the rendering.
#[derive(Debug)]
pub enum Value {
    /// A value of which nothing more is said.
    Leaf,
    /// An optional value that is present.
    Present(Box<Value>),
    /// An enum value of the named variant.
    Variant { name: &'static str, payload: Box<Value> },
    /// A struct value.
    Struct { entries: Vec<Entry> },
}

} // verus!
