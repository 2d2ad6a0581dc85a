//! Which fields of a struct leave an entry in the object around them.

use vstd::prelude::*;
use crate::frame::{Frame, MAX_DEPTH};
use crate::schema::{Field, Type, TypeKind};
use crate::script::field_frame;

verus! {

/// The frame for the first field of a transparent struct: one level down,
/// with the same sample.
pub open spec fn spec_forward_frame<'ty>(f: Frame<'ty>, field: &'ty Field) -> Frame<'ty> {
    f.child(&field.ty).with_val(f.val)
}

/// The frame for the first field of a transparent struct.
#[verifier::when_used_as_spec(spec_forward_frame)]
pub fn forward_frame<'ty>(f: Frame<'ty>, field: &'ty Field) -> (r: Frame<'ty>)
    requires
        f.depth < MAX_DEPTH,
    ensures
        r == spec_forward_frame(f, field),
        r.depth == f.depth + 1,
{
    f.child(&field.ty).with_val(f.val)
}

/// Whether the node at `c`, the type of a flattened field, has fields that
/// can take the field's place: the node is shown, has no literal example,
/// and is a struct with fields of its own or a transparent struct around
/// such a node.
pub open spec fn spec_splices(c: Frame) -> bool
    decreases MAX_DEPTH - c.depth,
{
    let g = c.customized();
    if !c.shown() || g.literal_example() is Some {
        false
    } else {
        match g.ty.kind {
            TypeKind::Struct { fields, transparent } => if !transparent {
                true
            } else if fields@.len() > 0 && g.depth < MAX_DEPTH {
                spec_splices(forward_frame(g, &fields@[0]))
            } else {
                false
            },
            _ => false,
        }
    }
}

/// Whether the node at `c` has fields that can take the place of a
/// flattened field.
#[verifier::when_used_as_spec(spec_splices)]
pub fn splices(c: Frame) -> (r: bool)
    ensures
        r == spec_splices(c),
    decreases MAX_DEPTH - c.depth,
{
    let g = c.customized();
    if !c.shown() || g.literal_example().is_some() {
        false
    } else {
        match &g.ty.kind {
            TypeKind::Struct { fields, transparent } => if !*transparent {
                true
            } else if fields.len() > 0 && g.depth < MAX_DEPTH {
                splices(forward_frame(g, &fields[0]))
            } else {
                false
            },
            _ => false,
        }
    }
}

/// Whether the fields that take the place of a flattened field leave any
/// entry.
pub open spec fn spec_has_entries(c: Frame) -> bool
    decreases MAX_DEPTH - c.depth, 2nat, 0nat,
{
    let g = c.customized();
    match g.ty.kind {
        TypeKind::Struct { fields, transparent } => if !transparent {
            spec_fields_produce(g, fields@, 0)
        } else if fields@.len() > 0 && g.depth < MAX_DEPTH {
            spec_has_entries(forward_frame(g, &fields@[0]))
        } else {
            false
        },
        _ => false,
    }
}

/// Whether some field from position `i` on leaves an entry.
pub open spec fn spec_fields_produce<'ty>(f: Frame<'ty>, fields: Seq<Field>, i: nat) -> bool
    decreases MAX_DEPTH - f.depth, 1nat, fields.len() - i,
{
    if i >= fields.len() {
        false
    } else {
        spec_field_produces(f, &fields[i as int]) || spec_fields_produce(f, fields, i + 1)
    }
}

/// Whether a field leaves an entry in the object around it: a flattened
/// field whose type has fields to take its place, where these leave any;
/// any other field, where its type is shown.
pub open spec fn spec_field_produces<'ty>(f: Frame<'ty>, field: &'ty Field) -> bool
    decreases MAX_DEPTH - f.depth, 0nat, 0nat,
{
    if f.depth >= MAX_DEPTH {
        false
    } else {
        let c = field_frame(f, field);
        if field.flattened && splices(c) {
            spec_has_entries(c)
        } else {
            c.shown()
        }
    }
}

/// Whether the fields that take the place of a flattened field leave any
/// entry.
#[verifier::when_used_as_spec(spec_has_entries)]
pub fn has_entries(c: Frame) -> (r: bool)
    ensures
        r == spec_has_entries(c),
    decreases MAX_DEPTH - c.depth, 2nat, 0nat,
{
    let g = c.customized();
    match &g.ty.kind {
        TypeKind::Struct { fields, transparent } => if !*transparent {
            fields_produce(g, fields, 0)
        } else if fields.len() > 0 && g.depth < MAX_DEPTH {
            has_entries(forward_frame(g, &fields[0]))
        } else {
            false
        },
        _ => false,
    }
}

/// Whether some field from position `start` on leaves an entry.
pub fn fields_produce<'ty>(f: Frame<'ty>, fields: &'ty Vec<Field>, start: usize) -> (r: bool)
    ensures
        r == spec_fields_produce(f, fields@, start as nat),
    decreases MAX_DEPTH - f.depth, 1nat, 0nat,
{
    let mut i: usize = start;
    while i < fields.len()
        invariant
            start <= i,
            spec_fields_produce(f, fields@, start as nat) == spec_fields_produce(
                f,
                fields@,
                i as nat,
            ),
        decreases fields@.len() - i,
    {
        if field_produces(f, &fields[i]) {
            return true;
        }
        i = i + 1;
    }
    false
}

/// Whether a field leaves an entry in the object around it.
#[verifier::when_used_as_spec(spec_field_produces)]
pub fn field_produces<'ty>(f: Frame<'ty>, field: &'ty Field) -> (r: bool)
    ensures
        r == spec_field_produces(f, field),
    decreases MAX_DEPTH - f.depth, 0nat, 0nat,
{
    if f.depth >= MAX_DEPTH {
        false
    } else {
        let c = field_frame(f, field);
        if field.flattened && splices(c) {
            has_entries(c)
        } else {
            c.shown()
        }
    }
}

/// Whether some field of a tuple from position `i` on is shown.
pub open spec fn spec_items_produce<'ty>(f: Frame<'ty>, fields: Seq<Type>, i: nat) -> bool
    decreases fields.len() - i,
{
    if i >= fields.len() {
        false
    } else {
        f.child(&fields[i as int]).shown() || spec_items_produce(f, fields, i + 1)
    }
}

/// Whether some field of a tuple from position `start` on is shown.
pub fn items_produce<'ty>(f: Frame<'ty>, fields: &'ty Vec<Type>, start: usize) -> (r: bool)
    requires
        f.depth < MAX_DEPTH,
    ensures
        r == spec_items_produce(f, fields@, start as nat),
{
    let mut i: usize = start;
    while i < fields.len()
        invariant
            start <= i,
            f.depth < MAX_DEPTH,
            spec_items_produce(f, fields@, start as nat) == spec_items_produce(f, fields@, i as nat),
        decreases fields@.len() - i,
    {
        if f.child(&fields[i]).shown() {
            return true;
        }
        i = i + 1;
    }
    false
}

} // verus!
