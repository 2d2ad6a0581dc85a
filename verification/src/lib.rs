//! Annotated example documents rendered from a description of a type's shape.
//!
//! A [`schema::Type`] says what a value looks like: its fields, variants,
//! wrappers and tagging. The printer in [`ctxt`] walks such a description and
//! writes a representative instance, with comments on optional values, fixed
//! array sizes and whatever the schema carries, into an [`output::Output`];
//! [`layout::render`] turns the lines of that output into text.

use vstd::prelude::*;

pub mod text;
pub mod schema;
pub mod formatting;
pub mod output;
pub mod layout;
pub mod frame;
pub mod value;
pub mod script;
pub mod entries;
pub mod check;
pub mod pen;
pub mod ctxt;
pub mod print_array;
pub mod print_enum;
pub mod print_struct;
pub mod print_map;
pub mod laws;

use crate::ctxt::Ctxt;
use crate::formatting::Formatting;
use crate::frame::Frame;
use crate::layout::{page, render};
use crate::output::{lemma_run_numbered, Output, OutputView};
use crate::schema::{Type, Value, Visibility};
use crate::script::{fault, script, PrintError};

verus! {

/// The lines that a rendering of the node of `f` gives, begun on an output
/// without lines.
pub open spec fn outline(f: Frame) -> OutputView {
    OutputView::blank_page().run(script(f))
}

/// The text that a rendering of the node of `f` gives.
pub open spec fn document(f: Frame) -> Seq<char> {
    page(f.fmt.comments_style.separator@, outline(f).lines)
}

/// Renders `ty` into lines. Where the schema cannot be rendered, the result
/// is the first fault that the walk meets, and no line.
pub fn to_output<'ty>(
    ty: &'ty Type,
    val: Option<&'ty Value>,
    vis: Visibility,
    fmt: &Formatting,
) -> (r: Result<Output, PrintError>)
    ensures
        match r {
            Ok(out) => fault(Frame::root(ty, val, vis, *fmt)) is None && out@ == outline(
                Frame::root(ty, val, vis, *fmt),
            ) && out.fmt == *fmt && out@.numbered() && out.indent == 0,
            Err(e) => fault(Frame::root(ty, val, vis, *fmt)) == Some(e),
        },
{
    let root = Frame::root(ty, val, vis, *fmt);
    match root.check() {
        Err(e) => {
            return Err(e);
        },
        Ok(_) => {},
    }
    let mut out = Output::new(*fmt);
    let ctxt = Ctxt {
        ty,
        val,
        vis,
        fmt,
        out: &mut out,
        is_key: false,
        parent: None,
        example: None,
        flat: false,
        depth: 0,
    };
    ctxt.print();
    proof {
        lemma_run_numbered(OutputView::blank_page(), script(root));
    }
    Ok(out)
}

/// Renders `ty` into text. Where the schema cannot be rendered, the result
/// is the first fault that the walk meets, and no text.
pub fn to_json<'ty>(
    ty: &'ty Type,
    val: Option<&'ty Value>,
    vis: Visibility,
    fmt: &Formatting,
) -> (r: Result<String, PrintError>)
    ensures
        match r {
            Ok(text) => fault(Frame::root(ty, val, vis, *fmt)) is None && text@ == document(
                Frame::root(ty, val, vis, *fmt),
            ),
            Err(e) => fault(Frame::root(ty, val, vis, *fmt)) == Some(e),
        },
{
    match to_output(ty, val, vis, fmt) {
        Ok(out) => Ok(render(out)),
        Err(e) => Err(e),
    }
}

} // verus!
