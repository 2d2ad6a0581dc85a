//! How a sample value is followed from a node to the nodes below it.

use vstd::prelude::*;
use crate::schema::{Entry, Value, Variant};
use crate::text::str_eq;

verus! {

/// The first position from `i` on at which `entries` holds the name `name`,
/// or the length of `entries` where there is none.
pub open spec fn entry_from(entries: Seq<Entry>, name: Seq<char>, i: nat) -> nat
    decreases entries.len() - i,
{
    if i >= entries.len() {
        entries.len()
    } else if entries[i as int].name@ == name {
        i
    } else {
        entry_from(entries, name, i + 1)
    }
}

/// The first position from `i` on at which `variants` holds the name `name`,
/// or the length of `variants` where there is none.
pub open spec fn variant_from(variants: Seq<Variant>, name: Seq<char>, i: nat) -> nat
    decreases variants.len() - i,
{
    if i >= variants.len() {
        variants.len()
    } else if variants[i as int].name@ == name {
        i
    } else {
        variant_from(variants, name, i + 1)
    }
}

/// What the sample says of the value inside an optional: the inner value
/// where the sample is a present optional, nothing otherwise.
#[verifier::allow_in_spec]
pub fn inner_of<'a>(val: Option<&'a Value>) -> Option<&'a Value>
    returns
        (match val {
            Some(Value::Present(v)) => Some(&**v),
            _ => None,
        }),
{
    match val {
        Some(Value::Present(v)) => Some(&**v),
        _ => None,
    }
}

/// What the sample says of the payload of the variant `name`: the payload
/// where the sample is a value of that variant, nothing otherwise.
pub open spec fn spec_payload_of<'a>(val: Option<&'a Value>, name: &str) -> Option<&'a Value> {
    match val {
        Some(Value::Variant { name: n, payload }) => if n@ == name@ {
            Some(&**payload)
        } else {
            None
        },
        _ => None,
    }
}

/// What the sample says of the payload of the variant `name`.
#[verifier::when_used_as_spec(spec_payload_of)]
pub fn payload_of<'a>(val: Option<&'a Value>, name: &str) -> (r: Option<&'a Value>)
    ensures
        r == spec_payload_of(val, name),
{
    match val {
        Some(Value::Variant { name: n, payload }) => if str_eq(n, name) {
            Some(&**payload)
        } else {
            None
        },
        _ => None,
    }
}

/// What the sample says of the field `name`: the value of the first entry of
/// that name where the sample is a struct that has one, nothing otherwise.
pub open spec fn spec_field_of<'a>(val: Option<&'a Value>, name: &str) -> Option<&'a Value> {
    match val {
        Some(Value::Struct { entries }) => {
            let k = entry_from(entries@, name@, 0);
            if k < entries@.len() {
                Some(&entries@[k as int].value)
            } else {
                None
            }
        },
        _ => None,
    }
}

/// The first position at which `entries` holds the name `name`, or the
/// length of `entries` where there is none.
fn find_entry(entries: &Vec<Entry>, name: &str) -> (r: usize)
    ensures
        r == entry_from(entries@, name@, 0),
{
    let mut i: usize = 0;
    while i < entries.len()
        invariant
            i <= entries@.len(),
            entry_from(entries@, name@, 0) == entry_from(entries@, name@, i as nat),
        decreases entries@.len() - i,
    {
        if str_eq(entries[i].name, name) {
            return i;
        }
        i = i + 1;
    }
    i
}

/// The first position at which `variants` holds the name `name`, or the
/// length of `variants` where there is none.
fn find_variant(variants: &Vec<Variant>, name: &str) -> (r: usize)
    ensures
        r == variant_from(variants@, name@, 0),
{
    let mut i: usize = 0;
    while i < variants.len()
        invariant
            i <= variants@.len(),
            variant_from(variants@, name@, 0) == variant_from(variants@, name@, i as nat),
        decreases variants@.len() - i,
    {
        if str_eq(variants[i].name, name) {
            return i;
        }
        i = i + 1;
    }
    i
}

/// What the sample says of the field `name`.
#[verifier::when_used_as_spec(spec_field_of)]
pub fn field_of<'a>(val: Option<&'a Value>, name: &str) -> (r: Option<&'a Value>)
    ensures
        r == spec_field_of(val, name),
{
    match val {
        Some(Value::Struct { entries }) => {
            let k: usize = find_entry(entries, name);
            if k < entries.len() {
                Some(&entries[k].value)
            } else {
                None
            }
        },
        _ => None,
    }
}

/// The position of the variant that a rendering shows: the first variant
/// named as the sample's variant is, where the sample is an enum value and
/// there is such a variant; the first variant otherwise.
pub open spec fn spec_live(variants: Seq<Variant>, val: Option<&Value>) -> nat {
    match val {
        Some(Value::Variant { name, .. }) => {
            let k = variant_from(variants, name@, 0);
            if k < variants.len() {
                k
            } else {
                0
            }
        },
        _ => 0,
    }
}

/// The position of the variant that a rendering shows.
pub fn live(variants: &Vec<Variant>, val: Option<&Value>) -> (r: usize)
    ensures
        r == spec_live(variants@, val),
        variants@.len() > 0 ==> r < variants@.len(),
{
    match val {
        Some(Value::Variant { name, .. }) => {
            let k: usize = find_variant(variants, name);
            if k < variants.len() {
                k
            } else {
                0
            }
        },
        _ => 0,
    }
}

} // verus!
