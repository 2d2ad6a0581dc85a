//! What holds of every rendering.

use vstd::prelude::*;
use crate::entries::{forward_frame, splices};
use crate::formatting::wants_custom;
use crate::frame::{Frame, MAX_DEPTH};
use crate::layout::page;
use crate::output::{Op, Output, OutputView};
use crate::pen::wrote;
use crate::schema::{Field, Tag, Type, TypeKind, Variant};
use crate::script::{
    comment_ops, element, enum_fault, fault, field_frame, field_script, fields_fault,
    fields_script, inner_frame, optional_hint, optional_script, payload_frame, script,
    variant_fault, PrintError,
};
use crate::value::spec_live;

verus! {

/// A node that the visibility filter rejects leaves no trace: the printer
/// writes nothing for it, whatever the output held before, and finds no
/// fault in it.
pub proof fn lemma_hidden_node_leaves_nothing(f: Frame, o: OutputView)
    requires
        !f.visible(),
    ensures
        script(f) == Seq::<Op>::empty(),
        fault(f) is None,
        o.run(script(f)) == o,
{
}

/// A node that is neither written out nor read in is rejected by every
/// visibility filter.
pub proof fn lemma_private_node_is_hidden(f: Frame)
    requires
        !f.ty.serializable,
        !f.ty.deserializable,
    ensures
        !f.visible(),
        script(f) == Seq::<Op>::empty(),
{
}

/// The printer of an optional value writes the hint if and only if the hint
/// is switched on: with the hint on, the hint and what the value inside
/// gives; with the hint off, only what the value inside gives, and that only
/// where the sample says something of the optional.
pub proof fn lemma_optional_hint(f: Frame, ty: &Type)
    requires
        f.depth < MAX_DEPTH,
    ensures
        f.fmt.auto_comments.optional ==> optional_script(f, ty) == seq![Op::Comment("Optional"@)]
            + script(inner_frame(f, ty)),
        !f.fmt.auto_comments.optional && !f.omitted() ==> optional_script(f, ty) == script(
            inner_frame(f, ty),
        ),
        f.omitted() ==> optional_script(f, ty) == Seq::<Op>::empty(),
        optional_hint(f) == seq![Op::Comment("Optional"@)] <==> f.fmt.auto_comments.optional,
{
    assert(optional_hint(f) == seq![Op::Comment("Optional"@)] ==> optional_hint(f).len() == 1);
    if !f.fmt.auto_comments.optional && !f.omitted() {
        assert(Seq::<Op>::empty() + script(inner_frame(f, ty)) =~= script(inner_frame(f, ty)));
    }
}

/// What is written for an optional node that is shown and has no literal
/// example: its comment, the hint if and only if the hint is switched on
/// under the node's own rendering choices, and what the value inside gives.
pub proof fn lemma_optional_node(f: Frame)
    requires
        f.shown(),
        f.ty.kind is Optional,
        f.customized().literal_example() is None,
        f.depth < MAX_DEPTH,
    ensures
        script(f) == comment_ops(f.customized()) + optional_hint(f.customized()) + script(
            inner_frame(f.customized(), &*f.ty.kind->Optional_ty),
        ),
{
    let g = f.customized();
    let ty = &*f.ty.kind->Optional_ty;
    assert(comment_ops(g) + (optional_hint(g) + script(inner_frame(g, ty))) =~= comment_ops(g)
        + optional_hint(g) + script(inner_frame(g, ty)));
}

/// A literal example stands for the whole node: what is written for a node
/// that has one is the node's comment and the example as it is, whatever the
/// kind of the node, and nothing below the node can be at fault.
pub proof fn lemma_literal_example_stands_alone(f: Frame)
    requires
        f.shown(),
        f.customized().literal_example() is Some,
    ensures
        script(f) == comment_ops(f.customized()).push(
            Op::Write(f.customized().literal_example().unwrap()@),
        ),
        fault(f) is None,
{
    let g = f.customized();
    let e = g.literal_example().unwrap();
    assert(comment_ops(g) + seq![Op::Write(e@)] =~= comment_ops(g).push(Op::Write(e@)));
}

/// Rendering is repeatable: two renderings of one node under the same
/// choices, begun on outputs that hold the same, end on outputs that hold
/// the same and give the same text.
pub proof fn lemma_rendering_is_repeatable(
    f: Frame,
    before1: Output,
    after1: Output,
    before2: Output,
    after2: Output,
)
    requires
        before1@ == before2@,
        before1.fmt == before2.fmt,
        wrote(before1, after1, script(f)),
        wrote(before2, after2, script(f)),
    ensures
        after1@ == after2@,
        page(after1.fmt.comments_style.separator@, after1@.lines) == page(
            after2.fmt.comments_style.separator@,
            after2@.lines,
        ),
{
}

/// Tagging from inside needs a payload with fields: a variant whose payload
/// has none is at fault under that strategy, wherever the walk stands.
pub proof fn lemma_internal_tag_needs_fields(e: Frame, tag: &'static str, v: &Variant)
    requires
        !v.payload.is_field_bearing(),
    ensures
        variant_fault(e, Tag::Internal { tag }, v) == Some(
            PrintError::Untaggable { tag, variant: v.name },
        ),
{
}

/// An internally tagged enum whose shown variant has a payload without
/// fields cannot be rendered, and the fault names the tag and the variant.
pub proof fn lemma_untaggable_enum_is_refused(f: Frame)
    requires
        f.shown(),
        f.customized().literal_example() is None,
        f.ty.kind is Enum,
        f.ty.kind->Enum_tag is Internal,
        f.ty.kind->Enum_variants@.len() > 0,
        !f.ty.kind->Enum_variants@[spec_live(
            f.ty.kind->Enum_variants@,
            f.val,
        ) as int].payload.is_field_bearing(),
    ensures
        fault(f) == Some(
            PrintError::Untaggable {
                tag: f.ty.kind->Enum_tag->Internal_tag,
                variant: f.ty.kind->Enum_variants@[spec_live(
                    f.ty.kind->Enum_variants@,
                    f.val,
                ) as int].name,
            },
        ),
{
    let g = f.customized();
    let variants = f.ty.kind->Enum_variants@;
    let tag = f.ty.kind->Enum_tag;
    assert(g.val == f.val);
    assert(enum_fault(g, tag, variants) == variant_fault(
        g,
        tag,
        &variants[spec_live(variants, g.val) as int],
    ));
}

/// A flattened field leaves no object of its own: where its type is a
/// struct that is shown and has no literal example, the field gives to the
/// object around it the comment of that struct and the struct's fields, with
/// neither a key nor braces around them.
pub proof fn lemma_flattened_field_is_spliced(f: Frame, field: &Field)
    requires
        f.depth < MAX_DEPTH,
        field.flattened,
        field.ty.is_field_bearing(),
        field_frame(f, field).shown(),
        field_frame(f, field).customized().literal_example() is None,
    ensures
        splices(field_frame(f, field)),
        field_script(f, field, script(field_frame(f, field))) == comment_ops(
            field_frame(f, field).customized(),
        ) + fields_script(field_frame(f, field).customized(), field.ty.kind->Struct_fields@, 0),
{
    let c = field_frame(f, field).customized();
    let inner = field.ty.kind->Struct_fields@;
    assert(c.flat);
    assert(Seq::<Op>::empty() + Seq::<Op>::empty() + fields_script(c, inner, 0) + Seq::<Op>::empty()
        =~= fields_script(c, inner, 0));
}

/// Flattening goes on through a transparent struct: where the type of a
/// flattened field is a transparent struct, what decides is the type of that
/// struct's first field, and a struct there is rendered flat in its turn.
pub proof fn lemma_flattening_goes_through_transparent(f: Frame, field: &Field)
    requires
        f.depth < MAX_DEPTH,
        field.flattened,
        field.ty.is_transparent(),
        field.ty.kind->Struct_fields@.len() > 0,
        field_frame(f, field).shown(),
        field_frame(f, field).customized().literal_example() is None,
        field_frame(f, field).depth < MAX_DEPTH,
    ensures
        forward_frame(
            field_frame(f, field).customized(),
            &field.ty.kind->Struct_fields@[0],
        ).flat,
        splices(field_frame(f, field)) == splices(
            forward_frame(field_frame(f, field).customized(), &field.ty.kind->Struct_fields@[0]),
        ),
{
}

/// Flattening ends with the flattened field: the fields of its type are
/// entries of their own, and a struct among their types has its braces.
pub proof fn lemma_flattening_ends_below(f: Frame, field: &Field, below: &Field)
    requires
        f.depth < MAX_DEPTH,
        field.flattened,
        field.ty.is_field_bearing(),
        !below.flattened,
        field_frame(f, field).depth < MAX_DEPTH,
    ensures
        !field_frame(field_frame(f, field).customized(), below).flat,
{
}

/// The depth grows by exactly one with every step down, and by nothing
/// else: no other derivation of a frame changes it.
pub proof fn lemma_depth_grows_by_one(f: Frame, ty: &Type, field: &Field, v: &Variant)
    requires
        f.depth < MAX_DEPTH,
    ensures
        f.nested().depth == f.depth + 1,
        f.child(ty).depth == f.depth + 1,
        element(f, ty).depth == f.depth + 1,
        inner_frame(f, ty).depth == f.depth + 1,
        field_frame(f, field).depth == f.depth + 1,
        forward_frame(f, field).depth == f.depth + 1,
        payload_frame(f, v).depth == f.depth + 1,
        f.with_ty(ty).depth == f.depth,
        f.with_val(None).depth == f.depth,
        f.with_example(None).depth == f.depth,
        f.with_fmt(f.fmt).depth == f.depth,
        f.with_flat().depth == f.depth,
        f.set_is_key().depth == f.depth,
        f.customized().depth == f.depth,
{
}

/// A flat rendering goes on through a transparent struct and through
/// nothing else: on the way to another node the flag stays set only where
/// it was set and the node left behind is a transparent struct.
pub proof fn lemma_flat_goes_on_only_through_transparent(f: Frame, ty: &Type)
    ensures
        f.with_ty(ty).flat == (f.flat && f.ty.is_transparent()),
        f.depth < MAX_DEPTH ==> f.child(ty).flat == (f.flat && f.ty.is_transparent()),
{
}

/// An example that was handed down does not outlive the step to another
/// node, unless an optional value or an array hands it on to what it holds.
pub proof fn lemma_example_is_handed_on_by_wrappers_only(
    f: Frame,
    ty: &Type,
    field: &Field,
    v: &Variant,
)
    requires
        f.depth < MAX_DEPTH,
    ensures
        f.with_ty(ty).example is None,
        f.child(ty).example is None,
        field_frame(f, field).example is None,
        forward_frame(f, field).example is None,
        payload_frame(f, v).example is None,
        inner_frame(f, ty).example == f.example(),
        element(f, ty).example == f.example(),
{
}

/// The formatting annotations of a node reach the nodes below it and no
/// others: a step down from the frame in which they apply hands the changed
/// choices on, and the frame that the walk came with is what the node's
/// neighbours are reached from.
pub proof fn lemma_choices_are_scoped(f: Frame, ty: &Type, field: &Field)
    requires
        f.depth < MAX_DEPTH,
    ensures
        f.customized().child(ty).fmt == f.customized().fmt,
        wants_custom(f.ty.metas@) ==> f.customized().fmt == f.fmt.spec_customize(f.ty.metas@),
        !wants_custom(f.ty.metas@) ==> f.customized() == f,
        f.child(ty).fmt == f.fmt,
        field_frame(f, field).fmt == f.fmt,
{
}

/// A fault in one field is a fault of the whole struct: where the walk
/// cannot render the type of some field, it cannot render the fields.
pub proof fn lemma_fault_in_a_field_is_a_fault_of_all(f: Frame, fields: Seq<Field>, i: nat, k: nat)
    requires
        f.depth < MAX_DEPTH,
        k <= i < fields.len(),
        fault(field_frame(f, &fields[i as int])) is Some,
    ensures
        fields_fault(f, fields, k) is Some,
    decreases i - k,
{
    if k < i {
        lemma_fault_in_a_field_is_a_fault_of_all(f, fields, i, k + 1);
    }
}

/// A wrapper that the walk always goes through: an optional value or an
/// array that is written out and read in and has neither an example nor
/// annotations.
pub open spec fn is_plain_wrapper(ty: &Type) -> bool {
    ty.serializable && ty.deserializable && ty.example is None && ty.metas@.len() == 0 && (
    ty.kind is Optional || ty.kind is Array)
}

/// The node inside a wrapper.
pub open spec fn unwrapped(ty: &Type) -> &Type {
    match ty.kind {
        TypeKind::Optional { ty } => &*ty,
        TypeKind::Array { ty, .. } => &*ty,
        _ => ty,
    }
}

/// `ty` begins a chain of at least `n` wrappers, one inside the other.
pub open spec fn is_chain(ty: &Type, n: nat) -> bool
    decreases n,
{
    n == 0 || (is_plain_wrapper(ty) && is_chain(unwrapped(ty), (n - 1) as nat))
}

/// A chain of optional values and arrays that reaches below the deepest
/// level cannot be rendered: the walk ends with the fault of a schema nested
/// too deeply.
pub proof fn lemma_deep_chain_is_refused(f: Frame, n: nat)
    requires
        is_chain(f.ty, n),
        f.depth + n > MAX_DEPTH,
        f.fmt.auto_comments.optional,
        f.example is None,
    ensures
        fault(f) == Some(PrintError::TooDeep),
    decreases n,
{
    assert(n > 0);
    assert(is_plain_wrapper(f.ty));
    let g = f.customized();
    assert(!wants_custom(f.ty.metas@));
    assert(g == f);
    assert(f.visible()) by {
        let v = f.vis;
        assert(v.allows(true, true));
    }
    if f.depth < MAX_DEPTH {
        let inner = unwrapped(f.ty);
        assert(is_chain(inner, (n - 1) as nat));
        assert(n - 1 > 0);
        assert(is_plain_wrapper(inner));
        match f.ty.kind {
            TypeKind::Optional { ty } => {
                let c = inner_frame(f, &*ty);
                lemma_deep_chain_is_refused(c, (n - 1) as nat);
            },
            TypeKind::Array { ty, size } => {
                let c = element(f, &*ty);
                lemma_deep_chain_is_refused(c, (n - 1) as nat);
                assert(c.shown()) by {
                    assert(!wants_custom(c.ty.metas@));
                    assert(c.customized() == c);
                    let v = c.vis;
                    assert(v.allows(true, true));
                }
            },
            _ => {},
        }
    }
}

} // verus!
