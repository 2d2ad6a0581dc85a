//! The walk that finds out whether a schema can be rendered.

use vstd::prelude::*;
use crate::entries::forward_frame;
use crate::frame::{Frame, MAX_DEPTH};
use crate::schema::{Field, Tag, Type, TypeKind, Variant};
use crate::script::{
    array_fault, element, enum_fault, expands, fault, fault_with, field_frame, fields_fault,
    full_literal, inner_fault, inner_frame, items_fault, kind_fault, label_for, map_fault,
    optional_fault, payload_frame, struct_fault, tag_fault, variant_fault, variants_fault, Label,
    PrintError,
};
use crate::value::live;

verus! {

/// The first fault that the walk meets at the node of `f` or below it.
pub fn check_with<'ty>(f: Frame<'ty>, label: Option<Label>) -> (r: Option<PrintError>)
    ensures
        r == fault_with(f, label),
    decreases MAX_DEPTH - f.depth, 5nat, 0nat,
{
    if !f.shown() {
        None
    } else {
        check_inner(f.customized(), label)
    }
}

fn check_inner<'ty>(f: Frame<'ty>, label: Option<Label>) -> (r: Option<PrintError>)
    ensures
        r == inner_fault(f, label),
    decreases MAX_DEPTH - f.depth, 4nat, 0nat,
{
    if f.literal_example().is_some() {
        None
    } else {
        check_kind(f, label)
    }
}

fn check_kind<'ty>(f: Frame<'ty>, label: Option<Label>) -> (r: Option<PrintError>)
    ensures
        r == kind_fault(f, label),
    decreases MAX_DEPTH - f.depth, 3nat, 0nat,
{
    match &f.ty.kind {
        TypeKind::Array { ty, .. } => check_array(f, &**ty),
        TypeKind::Enum { tag, variants } => check_enum(f, *tag, variants),
        TypeKind::Struct { fields, transparent } => check_struct(f, fields, *transparent),
        TypeKind::Tuple { fields } => check_items(f, fields),
        TypeKind::Mapping { key, value } => check_map(f, &**key, &**value),
        TypeKind::Optional { ty } => check_optional(f, &**ty),
        _ => None,
    }
}

fn check_array<'ty>(f: Frame<'ty>, ty: &'ty Type) -> (r: Option<PrintError>)
    ensures
        r == array_fault(f, ty),
    decreases MAX_DEPTH - f.depth, 2nat, 0nat,
{
    if f.depth >= MAX_DEPTH {
        return Some(PrintError::TooDeep);
    }
    let c = element(f, ty);
    if !c.shown() || full_literal(f).is_some() {
        None
    } else if expands(f, ty) {
        match &ty.kind {
            TypeKind::Enum { tag, variants } => check_variants(c.customized(), *tag, variants),
            _ => None,
        }
    } else {
        check_with(c, None)
    }
}

fn check_variants<'ty>(e: Frame<'ty>, tag: Tag, variants: &'ty Vec<Variant>) -> (r: Option<
    PrintError,
>)
    ensures
        r == variants_fault(e, tag, variants@, 0),
    decreases MAX_DEPTH - e.depth, 1nat, 0nat,
{
    let mut i: usize = 0;
    while i < variants.len()
        invariant
            i <= variants@.len(),
            variants_fault(e, tag, variants@, 0) == variants_fault(e, tag, variants@, i as nat),
        decreases variants@.len() - i,
    {
        let r = check_variant(e, tag, &variants[i]);
        if r.is_some() {
            return r;
        }
        i = i + 1;
    }
    None
}

fn check_enum<'ty>(f: Frame<'ty>, tag: Tag, variants: &'ty Vec<Variant>) -> (r: Option<PrintError>)
    ensures
        r == enum_fault(f, tag, variants@),
    decreases MAX_DEPTH - f.depth, 2nat, 0nat,
{
    if variants.len() == 0 {
        None
    } else {
        check_variant(f, tag, &variants[live(variants, f.val)])
    }
}

fn check_variant<'ty>(e: Frame<'ty>, tag: Tag, v: &'ty Variant) -> (r: Option<PrintError>)
    ensures
        r == variant_fault(e, tag, v),
    decreases MAX_DEPTH - e.depth, 0nat, 0nat,
{
    let bad = tag_fault(tag, v);
    if bad.is_some() {
        bad
    } else if e.depth >= MAX_DEPTH {
        Some(PrintError::TooDeep)
    } else {
        check_with(payload_frame(e, v), label_for(tag, v))
    }
}

fn check_struct<'ty>(f: Frame<'ty>, fields: &'ty Vec<Field>, transparent: bool) -> (r: Option<
    PrintError,
>)
    ensures
        r == struct_fault(f, fields@, transparent),
    decreases MAX_DEPTH - f.depth, 2nat, 0nat,
{
    if transparent {
        if fields.len() == 0 {
            None
        } else if f.depth >= MAX_DEPTH {
            Some(PrintError::TooDeep)
        } else {
            check_with(forward_frame(f, &fields[0]), None)
        }
    } else {
        check_fields(f, fields)
    }
}

fn check_fields<'ty>(f: Frame<'ty>, fields: &'ty Vec<Field>) -> (r: Option<PrintError>)
    ensures
        r == fields_fault(f, fields@, 0),
    decreases MAX_DEPTH - f.depth, 1nat, 0nat,
{
    if fields.len() > 0 && f.depth >= MAX_DEPTH {
        return Some(PrintError::TooDeep);
    }
    let mut i: usize = 0;
    while i < fields.len()
        invariant
            i <= fields@.len(),
            fields@.len() > 0 ==> f.depth < MAX_DEPTH,
            fields_fault(f, fields@, 0) == fields_fault(f, fields@, i as nat),
        decreases fields@.len() - i,
    {
        let r = check_with(field_frame(f, &fields[i]), None);
        if r.is_some() {
            return r;
        }
        i = i + 1;
    }
    None
}

fn check_items<'ty>(f: Frame<'ty>, fields: &'ty Vec<Type>) -> (r: Option<PrintError>)
    ensures
        r == items_fault(f, fields@, 0),
    decreases MAX_DEPTH - f.depth, 1nat, 0nat,
{
    if fields.len() > 0 && f.depth >= MAX_DEPTH {
        return Some(PrintError::TooDeep);
    }
    let mut i: usize = 0;
    while i < fields.len()
        invariant
            i <= fields@.len(),
            fields@.len() > 0 ==> f.depth < MAX_DEPTH,
            items_fault(f, fields@, 0) == items_fault(f, fields@, i as nat),
        decreases fields@.len() - i,
    {
        let r = check_with(f.child(&fields[i]), None);
        if r.is_some() {
            return r;
        }
        i = i + 1;
    }
    None
}

fn check_map<'ty>(f: Frame<'ty>, key: &'ty Type, value: &'ty Type) -> (r: Option<PrintError>)
    ensures
        r == map_fault(f, key, value),
    decreases MAX_DEPTH - f.depth, 2nat, 0nat,
{
    if f.depth >= MAX_DEPTH {
        return Some(PrintError::TooDeep);
    }
    let k = f.child(key).set_is_key();
    let v = f.child(value);
    if k.shown() && v.shown() {
        let r = check_with(k, None);
        if r.is_some() {
            r
        } else {
            check_with(v, None)
        }
    } else {
        None
    }
}

fn check_optional<'ty>(f: Frame<'ty>, ty: &'ty Type) -> (r: Option<PrintError>)
    ensures
        r == optional_fault(f, ty),
    decreases MAX_DEPTH - f.depth, 2nat, 0nat,
{
    if f.omitted() {
        None
    } else if f.depth >= MAX_DEPTH {
        Some(PrintError::TooDeep)
    } else {
        check_with(inner_frame(f, ty), None)
    }
}

impl<'ty> Frame<'ty> {
    /// Whether the node can be rendered: `Ok` where the walk meets no fault,
    /// and otherwise the first fault that it meets.
    pub fn check(self) -> (r: Result<(), PrintError>)
        ensures
            match r {
                Ok(_) => fault(self) is None,
                Err(e) => fault(self) == Some(e),
            },
    {
        match check_with(self, None) {
            Some(e) => Err(e),
            None => Ok(()),
        }
    }
}

} // verus!
