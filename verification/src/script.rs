//! What the printer writes for a node, as a sequence of writer operations,
//! and on which schemas it cannot do its work.

use vstd::prelude::*;
use vstd::string::*;
use crate::entries::{
    forward_frame, spec_field_produces, spec_fields_produce, spec_items_produce, splices,
};
use crate::frame::{Frame, MAX_DEPTH};
use crate::output::Op;
use crate::schema::{Field, Tag, Type, TypeKind, Variant};
use crate::text::{decimal, starts_with_char};
use crate::value::{field_of, inner_of, payload_of, spec_live};

verus! {

/// The tag field that an internally or adjacently tagged variant shows: the
/// field's name and the variant's name.
#[derive(Clone, Copy, Debug)]
pub struct Label {
    pub tag: &'static str,
    pub name: &'static str,
}

/// Why a schema cannot be rendered.
#[derive(Clone, Copy, Debug, PartialEq, Eq)]
pub enum PrintError {
    /// The schema is nested more deeply than the walk can follow.
    TooDeep,
    /// An internally tagged enum has a variant whose payload has no fields
    /// that the tag field could stand beside.
    Untaggable { tag: &'static str, variant: &'static str },
}

impl PrintError {
    /// What the fault is, in words.
    pub open spec fn spec_message(self) -> Seq<char> {
        match self {
            PrintError::TooDeep => "the schema is nested too deeply; it may hold a recursive type"@,
            PrintError::Untaggable { tag, variant } => "the variant `"@ + variant@
                + "` cannot carry the tag `"@ + tag@ + "`: its payload has no fields"@,
        }
    }

    /// What the fault is, in words that name the tag and the variant.
    pub fn message(&self) -> (r: String)
        ensures
            r@ == self.spec_message(),
    {
        match self {
            PrintError::TooDeep => String::from_str(
                "the schema is nested too deeply; it may hold a recursive type",
            ),
            PrintError::Untaggable { tag, variant } => {
                let mut r = String::from_str("the variant `");
                r.append(variant);
                r.append("` cannot carry the tag `");
                r.append(tag);
                r.append("`: its payload has no fields");
                r
            },
        }
    }
}

/// `s` between double quotes.
pub open spec fn quoted(s: Seq<char>) -> Seq<char> {
    "\""@ + s + "\""@
}

/// The start of an entry of an object: the name between double quotes, a
/// colon and a space.
pub open spec fn key_text(name: Seq<char>) -> Seq<char> {
    "\""@ + name + "\": "@
}

/// The comment of the node, if it has one.
pub open spec fn comment_ops(f: Frame) -> Seq<Op> {
    match f.ty.comment {
        Some(c) => seq![Op::Comment(c@)],
        None => Seq::empty(),
    }
}

/// What stands for a value of a scalar kind where no example says more.
pub open spec fn placeholder(kind: TypeKind) -> Seq<char> {
    match kind {
        TypeKind::Bool => "true"@,
        TypeKind::Float => "123.45"@,
        TypeKind::Integer => "123"@,
        _ => "string"@,
    }
}

/// The token of a scalar node: the first value of its example, or else the
/// placeholder of its kind; between double quotes where the node is a string
/// or stands as a key.
pub open spec fn scalar_text(f: Frame) -> Seq<char> {
    let base = match f.first_example() {
        Some(e) => e@,
        None => placeholder(f.ty.kind),
    };
    if f.ty.kind is String || f.is_key {
        quoted(base)
    } else {
        base
    }
}

/// The comma between two entries, where another entry follows.
pub open spec fn sep(more: bool) -> Seq<Op> {
    if more {
        seq![Op::Write(","@)]
    } else {
        Seq::empty()
    }
}

/// An entry of an object: a line of its own that begins with the key and
/// goes on with the value.
pub open spec fn entry_ops(name: Seq<char>, body: Seq<Op>) -> Seq<Op> {
    seq![Op::Line, Op::Write(key_text(name))] + body
}

/// The entry that holds the tag field.
pub open spec fn label_ops(label: Label) -> Seq<Op> {
    seq![Op::Line, Op::Write(key_text(label.tag@)), Op::Write(quoted(label.name@))]
}

/// The entry that holds the tag field, where there is one, with a comma
/// behind it where another entry follows.
pub open spec fn tag_entry(label: Option<Label>, more: bool) -> Seq<Op> {
    match label {
        Some(l) => label_ops(l) + sep(more),
        None => Seq::empty(),
    }
}

/// The opening brace of a struct, unless the struct is rendered flat.
pub open spec fn brace_open(flat: bool) -> Seq<Op> {
    if flat {
        Seq::empty()
    } else {
        block_open("{"@)
    }
}

/// The closing brace of a struct, unless the struct is rendered flat.
pub open spec fn brace_close(flat: bool) -> Seq<Op> {
    if flat {
        Seq::empty()
    } else {
        block_close("}"@)
    }
}

/// The opening of a block: the bracket, and the lines below it one level to
/// the right.
pub open spec fn block_open(bracket: Seq<char>) -> Seq<Op> {
    seq![Op::Write(bracket), Op::Indent]
}

/// The closing of a block: back one level, and the bracket on a line of its
/// own.
pub open spec fn block_close(bracket: Seq<char>) -> Seq<Op> {
    seq![Op::Dedent, Op::Line, Op::Write(bracket)]
}

/// The example of an array where it stands for the whole array: its first
/// value, if that begins with an opening square bracket.
pub open spec fn spec_full_literal(f: Frame) -> Option<&'static str> {
    match f.first_example() {
        Some(e) => if e@.len() > 0 && e@[0] == '[' {
            Some(e)
        } else {
            None
        },
        None => None,
    }
}

/// The example of an array where it stands for the whole array.
#[verifier::when_used_as_spec(spec_full_literal)]
pub fn full_literal(f: Frame) -> (r: Option<&'static str>)
    ensures
        r == spec_full_literal(f),
{
    match f.first_example() {
        Some(e) => if starts_with_char(e, '[') {
            Some(e)
        } else {
            None
        },
        None => None,
    }
}

/// Whether an array of this size is written on one line.
#[verifier::allow_in_spec]
pub fn is_inline(f: Frame, size: Option<usize>) -> bool
    returns
        (match size {
            Some(n) => n < f.fmt.inline_threshold,
            None => false,
        }),
{
    match size {
        Some(n) => n < f.fmt.inline_threshold,
        None => false,
    }
}

/// The hint on the size of an array of known size.
pub open spec fn size_text(n: nat) -> Seq<char> {
    "Must contain exactly "@ + decimal(n) + " elements"@
}

/// The hint on the size of an array, where the array has a known size and
/// the hint is switched on.
pub open spec fn size_comment(show: bool, size: Option<usize>) -> Seq<Op> {
    match size {
        Some(n) => if show {
            seq![Op::Comment(size_text(n as nat))]
        } else {
            Seq::empty()
        },
        None => Seq::empty(),
    }
}

pub open spec fn array_open(inline: bool) -> Seq<Op> {
    if inline {
        seq![Op::Write("[ "@)]
    } else {
        block_open("["@)
    }
}

pub open spec fn array_close(inline: bool) -> Seq<Op> {
    if inline {
        seq![Op::Write(" ]"@)]
    } else {
        block_close("]"@)
    }
}

/// What stands before an entry of an array.
pub open spec fn item_begin(inline: bool) -> Seq<Op> {
    if inline {
        Seq::empty()
    } else {
        seq![Op::Line]
    }
}

/// What stands between two entries of an array, behind the first.
pub open spec fn item_end(inline: bool) -> Seq<Op> {
    if inline {
        seq![Op::Write(", "@)]
    } else {
        seq![Op::Write(","@)]
    }
}

/// What stands behind an entry of an array: the separator, where another
/// entry follows.
pub open spec fn item_sep(inline: bool, more: bool) -> Seq<Op> {
    if more {
        item_end(inline)
    } else {
        Seq::empty()
    }
}

/// The mark for the entries of an array that are left out.
pub open spec fn array_rest(ellipsis: Seq<char>, inline: bool) -> Seq<Op> {
    if inline {
        seq![Op::Write(ellipsis)]
    } else {
        seq![Op::Line, Op::Write(ellipsis)]
    }
}

/// The frame for the element of an array: one level down, with the array's
/// example handed on.
pub open spec fn spec_element<'ty>(f: Frame<'ty>, ty: &'ty Type) -> Frame<'ty> {
    f.child(ty).with_example(f.example())
}

/// The frame for the element of an array.
#[verifier::when_used_as_spec(spec_element)]
pub fn element<'ty>(f: Frame<'ty>, ty: &'ty Type) -> (r: Frame<'ty>)
    requires
        f.depth < MAX_DEPTH,
    ensures
        r == spec_element(f, ty),
        r.depth == f.depth + 1,
{
    f.child(ty).with_example(f.example())
}

/// Whether an array shows one entry for each variant of its element: the
/// choice is made, and the element is an enum with at least one variant and
/// without a literal example.
pub open spec fn spec_expands<'ty>(f: Frame<'ty>, ty: &'ty Type) -> bool {
    f.fmt.expand_variants && element(f, ty).customized().literal_example() is None && match ty.kind {
        TypeKind::Enum { variants, .. } => variants@.len() > 0,
        _ => false,
    }
}

/// Whether an array shows one entry for each variant of its element.
#[verifier::when_used_as_spec(spec_expands)]
pub fn expands<'ty>(f: Frame<'ty>, ty: &'ty Type) -> (r: bool)
    requires
        f.depth < MAX_DEPTH,
    ensures
        r == spec_expands(f, ty),
{
    f.fmt.expand_variants && element(f, ty).customized().literal_example().is_none() && match &ty.kind {
        TypeKind::Enum { variants, .. } => variants.len() > 0,
        _ => false,
    }
}

/// The tag strategy of an enum node; the default for any other node.
pub open spec fn tag_of(ty: &Type) -> Tag {
    match ty.kind {
        TypeKind::Enum { tag, .. } => tag,
        _ => Tag::External,
    }
}

/// The variants of an enum node; none for any other node.
pub open spec fn variants_of(ty: &Type) -> Seq<Variant> {
    match ty.kind {
        TypeKind::Enum { variants, .. } => variants@,
        _ => Seq::empty(),
    }
}

/// The frame for the payload of a variant.
pub open spec fn spec_payload_frame<'ty>(e: Frame<'ty>, v: &'ty Variant) -> Frame<'ty> {
    e.child(&v.payload).with_val(payload_of(e.val, v.name))
}

/// The frame for the payload of a variant.
#[verifier::when_used_as_spec(spec_payload_frame)]
pub fn payload_frame<'ty>(e: Frame<'ty>, v: &'ty Variant) -> (r: Frame<'ty>)
    requires
        e.depth < MAX_DEPTH,
    ensures
        r == spec_payload_frame(e, v),
        r.depth == e.depth + 1,
{
    e.child(&v.payload).with_val(payload_of(e.val, v.name))
}

/// The frame for the type of a field; a flattened field is rendered flat.
pub open spec fn spec_field_frame<'ty>(f: Frame<'ty>, field: &'ty Field) -> Frame<'ty> {
    let c = f.child(&field.ty).with_val(field_of(f.val, field.name));
    if field.flattened {
        c.with_flat()
    } else {
        c
    }
}

/// The frame for the type of a field.
#[verifier::when_used_as_spec(spec_field_frame)]
pub fn field_frame<'ty>(f: Frame<'ty>, field: &'ty Field) -> (r: Frame<'ty>)
    requires
        f.depth < MAX_DEPTH,
    ensures
        r == spec_field_frame(f, field),
        r.depth == f.depth + 1,
{
    let c = f.child(&field.ty).with_val(field_of(f.val, field.name));
    if field.flattened {
        c.with_flat()
    } else {
        c
    }
}

/// The frame for the value inside an optional: one level down, with the
/// optional's example handed on.
pub open spec fn spec_inner_frame<'ty>(f: Frame<'ty>, ty: &'ty Type) -> Frame<'ty> {
    f.child(ty).with_val(inner_of(f.val)).with_example(f.example())
}

/// The frame for the value inside an optional.
#[verifier::when_used_as_spec(spec_inner_frame)]
pub fn inner_frame<'ty>(f: Frame<'ty>, ty: &'ty Type) -> (r: Frame<'ty>)
    requires
        f.depth < MAX_DEPTH,
    ensures
        r == spec_inner_frame(f, ty),
        r.depth == f.depth + 1,
{
    f.child(ty).with_val(inner_of(f.val)).with_example(f.example())
}

/// What the printer writes for the node of `f`.
pub open spec fn script(f: Frame) -> Seq<Op> {
    script_with(f, None)
}

/// What the printer writes for the node of `f`; with a label, a struct at
/// the node shows the tag field before its own fields. A node that is not
/// shown leaves nothing. Otherwise the node's formatting annotations apply
/// from here on down.
pub open spec fn script_with(f: Frame, label: Option<Label>) -> Seq<Op>
    decreases MAX_DEPTH - f.depth, 5nat, 0nat,
{
    if !f.shown() {
        Seq::empty()
    } else {
        inner_script(f.customized(), label)
    }
}

/// The comment of the node, and below it the literal example as it is, or
/// else what the kind of the node asks for.
pub open spec fn inner_script(f: Frame, label: Option<Label>) -> Seq<Op>
    decreases MAX_DEPTH - f.depth, 4nat, 0nat,
{
    comment_ops(f) + match f.literal_example() {
        Some(e) => seq![Op::Write(e@)],
        None => kind_script(f, label),
    }
}

/// What the kind of the node asks for.
pub open spec fn kind_script(f: Frame, label: Option<Label>) -> Seq<Op>
    decreases MAX_DEPTH - f.depth, 3nat, 0nat,
{
    match f.ty.kind {
        TypeKind::Array { ty, size } => array_script(f, &*ty, size),
        TypeKind::Enum { tag, variants } => enum_script(f, tag, variants@),
        TypeKind::Struct { fields, transparent } => struct_script(f, fields@, transparent, label),
        TypeKind::Tuple { fields } => tuple_script(f, fields@),
        TypeKind::Mapping { key, value } => map_script(f, &*key, &*value),
        TypeKind::Optional { ty } => optional_script(f, &*ty),
        _ => seq![Op::Write(scalar_text(f))],
    }
}

/// An array whose element is not shown leaves nothing. An example that
/// stands for the whole array is written as it is. Otherwise the array has
/// its size hint, its brackets, and between them either one entry for each
/// variant of its element or one entry and the mark for the rest.
pub open spec fn array_script<'ty>(f: Frame<'ty>, ty: &'ty Type, size: Option<usize>) -> Seq<Op>
    decreases MAX_DEPTH - f.depth, 2nat, 0nat,
{
    let c = element(f, ty);
    let inline = is_inline(f, size);
    if f.depth >= MAX_DEPTH || !c.shown() {
        Seq::empty()
    } else if full_literal(f) is Some {
        seq![Op::Write(full_literal(f).unwrap()@)]
    } else {
        size_comment(f.fmt.auto_comments.array_size, size) + array_open(inline) + (if expands(
            f,
            ty,
        ) {
            variants_script(c.customized(), tag_of(ty), variants_of(ty), inline, 0)
        } else {
            item_begin(inline) + script_with(c, None) + item_end(inline) + array_rest(
                f.fmt.ellipsis@,
                inline,
            )
        }) + array_close(inline)
    }
}

/// One entry of an array for each variant from position `i` on, with a
/// separator between two of them.
pub open spec fn variants_script<'ty>(
    e: Frame<'ty>,
    tag: Tag,
    variants: Seq<Variant>,
    inline: bool,
    i: nat,
) -> Seq<Op>
    decreases MAX_DEPTH - e.depth, 1nat, variants.len() - i,
{
    if i >= variants.len() {
        Seq::empty()
    } else {
        item_begin(inline) + variant_script(e, tag, &variants[i as int]) + item_sep(
            inline,
            i + 1 < variants.len(),
        ) + variants_script(e, tag, variants, inline, i + 1)
    }
}

/// An enum shows one variant: the one that the sample names, or else the
/// first. An enum without variants leaves nothing.
pub open spec fn enum_script<'ty>(f: Frame<'ty>, tag: Tag, variants: Seq<Variant>) -> Seq<Op>
    decreases MAX_DEPTH - f.depth, 2nat, 0nat,
{
    if variants.len() == 0 {
        Seq::empty()
    } else {
        variant_script(f, tag, &variants[spec_live(variants, f.val) as int])
    }
}

/// A variant under a tag strategy. Untagged, the payload stands alone.
/// Tagged from outside, it is the one entry of an object, under the
/// variant's name. Tagged from inside, the payload shows the tag field
/// before its own fields. Tagged beside, an object holds the tag field and
/// the payload under the content name.
pub open spec fn variant_script<'ty>(e: Frame<'ty>, tag: Tag, v: &'ty Variant) -> Seq<Op>
    decreases MAX_DEPTH - e.depth, 0nat, 0nat,
{
    if e.depth >= MAX_DEPTH {
        Seq::empty()
    } else {
        let p = payload_frame(e, v);
        match tag {
            Tag::Untagged => script_with(p, None),
            Tag::External => block_open("{"@) + (if p.shown() {
                entry_ops(v.name@, script_with(p, None))
            } else {
                Seq::empty()
            }) + block_close("}"@),
            Tag::Internal { tag } => script_with(p, Some(Label { tag, name: v.name })),
            Tag::Adjacent { tag, content } => block_open("{"@) + label_ops(
                Label { tag, name: v.name },
            ) + (if p.shown() {
                sep(true) + entry_ops(content@, script_with(p, None))
            } else {
                Seq::empty()
            }) + block_close("}"@),
        }
    }
}

/// A transparent struct is written as its first field is. Any other struct
/// shows the tag field, if it has a label, and its fields in their order,
/// with a comma between two entries, between braces unless it is rendered
/// flat.
pub open spec fn struct_script<'ty>(
    f: Frame<'ty>,
    fields: Seq<Field>,
    transparent: bool,
    label: Option<Label>,
) -> Seq<Op>
    decreases MAX_DEPTH - f.depth, 2nat, 0nat,
{
    if transparent {
        if fields.len() == 0 || f.depth >= MAX_DEPTH {
            Seq::empty()
        } else {
            script_with(forward_frame(f, &fields[0]), None)
        }
    } else {
        brace_open(f.flat) + tag_entry(label, spec_fields_produce(f, fields, 0)) + fields_script(
            f,
            fields,
            0,
        ) + brace_close(f.flat)
    }
}

/// What a field gives to the object around it. A flattened field whose type
/// has fields to take its place gives what that type gives, rendered flat;
/// any other field gives an entry under its name, where its type is shown.
pub open spec fn field_script<'ty>(f: Frame<'ty>, field: &'ty Field, body: Seq<Op>) -> Seq<Op> {
    let c = field_frame(f, field);
    if field.flattened && splices(c) {
        body
    } else if c.shown() {
        entry_ops(field.name@, body)
    } else {
        Seq::empty()
    }
}

/// The fields from position `i` on, with a comma behind each one that
/// leaves an entry and has such a field after it.
pub open spec fn fields_script<'ty>(f: Frame<'ty>, fields: Seq<Field>, i: nat) -> Seq<Op>
    decreases MAX_DEPTH - f.depth, 1nat, fields.len() - i,
{
    if i >= fields.len() || f.depth >= MAX_DEPTH {
        Seq::empty()
    } else {
        let field = &fields[i as int];
        field_script(f, field, script_with(field_frame(f, field), None)) + sep(
            spec_field_produces(f, field) && spec_fields_produce(f, fields, i + 1),
        ) + fields_script(f, fields, i + 1)
    }
}

/// A tuple shows its fields in their order between square brackets.
pub open spec fn tuple_script<'ty>(f: Frame<'ty>, fields: Seq<Type>) -> Seq<Op>
    decreases MAX_DEPTH - f.depth, 2nat, 0nat,
{
    block_open("["@) + items_script(f, fields, 0) + block_close("]"@)
}

/// The fields of a tuple from position `i` on, each on a line of its own,
/// with a comma behind each one that has a shown field after it. A field
/// that is not shown has no line.
pub open spec fn items_script<'ty>(f: Frame<'ty>, fields: Seq<Type>, i: nat) -> Seq<Op>
    decreases MAX_DEPTH - f.depth, 1nat, fields.len() - i,
{
    if i >= fields.len() || f.depth >= MAX_DEPTH {
        Seq::empty()
    } else {
        let c = f.child(&fields[i as int]);
        (if c.shown() {
            seq![Op::Line] + script_with(c, None) + sep(spec_items_produce(f, fields, i + 1))
        } else {
            Seq::empty()
        }) + items_script(f, fields, i + 1)
    }
}

/// A map shows one entry, its key rendered as a key, and the mark for the
/// rest. Where the key or the value is not shown, the entry is left out.
pub open spec fn map_script<'ty>(f: Frame<'ty>, key: &'ty Type, value: &'ty Type) -> Seq<Op>
    decreases MAX_DEPTH - f.depth, 2nat, 0nat,
{
    if f.depth >= MAX_DEPTH {
        Seq::empty()
    } else {
        let k = f.child(key).set_is_key();
        let v = f.child(value);
        block_open("{"@) + (if k.shown() && v.shown() {
            seq![Op::Line] + script_with(k, None) + seq![Op::Write(": "@)] + script_with(v, None)
                + seq![Op::Write(","@)]
        } else {
            Seq::empty()
        }) + seq![Op::Line, Op::Write(f.fmt.ellipsis@)] + block_close("}"@)
    }
}

/// The hint for an optional value.
pub open spec fn optional_hint(f: Frame) -> Seq<Op> {
    if f.fmt.auto_comments.optional {
        seq![Op::Comment("Optional"@)]
    } else {
        Seq::empty()
    }
}

/// An optional value that is left out leaves nothing. Any other shows the
/// hint, where that is switched on, and the value inside.
pub open spec fn optional_script<'ty>(f: Frame<'ty>, ty: &'ty Type) -> Seq<Op>
    decreases MAX_DEPTH - f.depth, 2nat, 0nat,
{
    if f.omitted() || f.depth >= MAX_DEPTH {
        Seq::empty()
    } else {
        optional_hint(f) + script_with(inner_frame(f, ty), None)
    }
}

/// The first of two faults.
pub open spec fn first_of(a: Option<PrintError>, b: Option<PrintError>) -> Option<PrintError> {
    if a is Some {
        a
    } else {
        b
    }
}

/// Why the node of `f` cannot be rendered, if it cannot: the first fault
/// that the walk meets.
pub open spec fn fault(f: Frame) -> Option<PrintError> {
    fault_with(f, None)
}

/// The first fault that the walk meets at the node of `f` or below it. The
/// walk does not go into a node that is not shown.
pub open spec fn fault_with(f: Frame, label: Option<Label>) -> Option<PrintError>
    decreases MAX_DEPTH - f.depth, 5nat, 0nat,
{
    if !f.shown() {
        None
    } else {
        inner_fault(f.customized(), label)
    }
}

/// The walk does not go below a node with a literal example.
pub open spec fn inner_fault(f: Frame, label: Option<Label>) -> Option<PrintError>
    decreases MAX_DEPTH - f.depth, 4nat, 0nat,
{
    if f.literal_example() is Some {
        None
    } else {
        kind_fault(f, label)
    }
}

pub open spec fn kind_fault(f: Frame, label: Option<Label>) -> Option<PrintError>
    decreases MAX_DEPTH - f.depth, 3nat, 0nat,
{
    match f.ty.kind {
        TypeKind::Array { ty, size } => array_fault(f, &*ty),
        TypeKind::Enum { tag, variants } => enum_fault(f, tag, variants@),
        TypeKind::Struct { fields, transparent } => struct_fault(f, fields@, transparent),
        TypeKind::Tuple { fields } => items_fault(f, fields@, 0),
        TypeKind::Mapping { key, value } => map_fault(f, &*key, &*value),
        TypeKind::Optional { ty } => optional_fault(f, &*ty),
        _ => None,
    }
}

/// An array cannot stand at the deepest level. The walk goes into its
/// element unless that is not shown or an example stands for the whole
/// array.
pub open spec fn array_fault<'ty>(f: Frame<'ty>, ty: &'ty Type) -> Option<PrintError>
    decreases MAX_DEPTH - f.depth, 2nat, 0nat,
{
    let c = element(f, ty);
    if f.depth >= MAX_DEPTH {
        Some(PrintError::TooDeep)
    } else if !c.shown() || full_literal(f) is Some {
        None
    } else if expands(f, ty) {
        variants_fault(c.customized(), tag_of(ty), variants_of(ty), 0)
    } else {
        fault_with(c, None)
    }
}

pub open spec fn variants_fault<'ty>(
    e: Frame<'ty>,
    tag: Tag,
    variants: Seq<Variant>,
    i: nat,
) -> Option<PrintError>
    decreases MAX_DEPTH - e.depth, 1nat, variants.len() - i,
{
    if i >= variants.len() {
        None
    } else {
        first_of(
            variant_fault(e, tag, &variants[i as int]),
            variants_fault(e, tag, variants, i + 1),
        )
    }
}

pub open spec fn enum_fault<'ty>(f: Frame<'ty>, tag: Tag, variants: Seq<Variant>) -> Option<
    PrintError,
>
    decreases MAX_DEPTH - f.depth, 2nat, 0nat,
{
    if variants.len() == 0 {
        None
    } else {
        variant_fault(f, tag, &variants[spec_live(variants, f.val) as int])
    }
}

/// The fault that tagging from inside meets on a payload without fields;
/// under any other strategy, and on a payload with fields, there is none.
pub open spec fn spec_tag_fault(tag: Tag, v: &Variant) -> Option<PrintError> {
    match tag {
        Tag::Internal { tag } => if v.payload.is_field_bearing() {
            None
        } else {
            Some(PrintError::Untaggable { tag, variant: v.name })
        },
        _ => None,
    }
}

/// The fault that tagging from inside meets on a payload without fields.
#[verifier::when_used_as_spec(spec_tag_fault)]
pub fn tag_fault(tag: Tag, v: &Variant) -> (r: Option<PrintError>)
    ensures
        r == spec_tag_fault(tag, v),
{
    match tag {
        Tag::Internal { tag } => {
            let bearing = match v.payload.kind {
                TypeKind::Struct { transparent, .. } => !transparent,
                _ => false,
            };
            if bearing {
                None
            } else {
                Some(PrintError::Untaggable { tag, variant: v.name })
            }
        },
        _ => None,
    }
}

/// The label that a payload is rendered with.
#[verifier::allow_in_spec]
pub fn label_for(tag: Tag, v: &Variant) -> Option<Label>
    returns
        (match tag {
            Tag::Internal { tag } => Some(Label { tag, name: v.name }),
            _ => None,
        }),
{
    match tag {
        Tag::Internal { tag } => Some(Label { tag, name: v.name }),
        _ => None,
    }
}

/// A variant that is tagged from inside needs a payload with fields. No
/// variant can stand at the deepest level.
pub open spec fn variant_fault<'ty>(e: Frame<'ty>, tag: Tag, v: &'ty Variant) -> Option<PrintError>
    decreases MAX_DEPTH - e.depth, 0nat, 0nat,
{
    if tag_fault(tag, v) is Some {
        tag_fault(tag, v)
    } else if e.depth >= MAX_DEPTH {
        Some(PrintError::TooDeep)
    } else {
        fault_with(payload_frame(e, v), label_for(tag, v))
    }
}

/// A struct with fields cannot stand at the deepest level.
pub open spec fn struct_fault<'ty>(f: Frame<'ty>, fields: Seq<Field>, transparent: bool) -> Option<
    PrintError,
>
    decreases MAX_DEPTH - f.depth, 2nat, 0nat,
{
    if transparent {
        if fields.len() == 0 {
            None
        } else if f.depth >= MAX_DEPTH {
            Some(PrintError::TooDeep)
        } else {
            fault_with(forward_frame(f, &fields[0]), None)
        }
    } else {
        fields_fault(f, fields, 0)
    }
}

pub open spec fn fields_fault<'ty>(f: Frame<'ty>, fields: Seq<Field>, i: nat) -> Option<PrintError>
    decreases MAX_DEPTH - f.depth, 1nat, fields.len() - i,
{
    if i >= fields.len() {
        None
    } else if f.depth >= MAX_DEPTH {
        Some(PrintError::TooDeep)
    } else {
        first_of(
            fault_with(field_frame(f, &fields[i as int]), None),
            fields_fault(f, fields, i + 1),
        )
    }
}

/// A tuple with fields cannot stand at the deepest level.
pub open spec fn items_fault<'ty>(f: Frame<'ty>, fields: Seq<Type>, i: nat) -> Option<PrintError>
    decreases MAX_DEPTH - f.depth, 1nat, fields.len() - i,
{
    if i >= fields.len() {
        None
    } else if f.depth >= MAX_DEPTH {
        Some(PrintError::TooDeep)
    } else {
        first_of(fault_with(f.child(&fields[i as int]), None), items_fault(f, fields, i + 1))
    }
}

/// A map cannot stand at the deepest level.
pub open spec fn map_fault<'ty>(f: Frame<'ty>, key: &'ty Type, value: &'ty Type) -> Option<
    PrintError,
>
    decreases MAX_DEPTH - f.depth, 2nat, 0nat,
{
    if f.depth >= MAX_DEPTH {
        Some(PrintError::TooDeep)
    } else {
        let k = f.child(key).set_is_key();
        let v = f.child(value);
        if k.shown() && v.shown() {
            first_of(fault_with(k, None), fault_with(v, None))
        } else {
            None
        }
    }
}

/// An optional value that is not left out cannot stand at the deepest
/// level.
pub open spec fn optional_fault<'ty>(f: Frame<'ty>, ty: &'ty Type) -> Option<PrintError>
    decreases MAX_DEPTH - f.depth, 2nat, 0nat,
{
    if f.omitted() {
        None
    } else if f.depth >= MAX_DEPTH {
        Some(PrintError::TooDeep)
    } else {
        fault_with(inner_frame(f, ty), None)
    }
}

} // verus!
