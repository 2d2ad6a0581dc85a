//! The rendering context and the printer's entry points.

use vstd::prelude::*;
use crate::formatting::{requires_custom_formatting, Formatting};
use crate::frame::{Frame, MAX_DEPTH};
use crate::output::{lemma_run_concat, lemma_run_one, lemma_run_push, Op, Output, INDENT};
use crate::pen::wrote;
use crate::schema::{Example, Type, TypeKind, Value, Visibility};
use crate::script::{
    comment_ops, fault, fault_with, inner_fault, inner_frame, inner_script, kind_script,
    optional_fault, optional_hint, optional_script, placeholder, scalar_text, script, script_with,
    Label, PrintError,
};
use crate::value::inner_of;

verus! {

/// The rendering context: a node, what the walk knows on reaching it, and the
/// output that the walk writes to.
pub struct Ctxt<'fmt, 'ty, 'out> {
    pub ty: &'ty Type,
    pub val: Option<&'ty Value>,
    pub vis: Visibility,
    pub fmt: &'fmt Formatting,
    pub out: &'out mut Output,
    pub is_key: bool,
    /// The node that the walk came from.
    pub parent: Option<&'ty Type>,
    /// When present, goes before the example of `ty`; carries an example
    /// through optional values and arrays.
    pub example: Option<Example>,
    /// When set, a struct at `ty` shows its fields without braces of its
    /// own, so that they stand among the fields of the struct around it.
    pub flat: bool,
    /// How many levels the walk has gone down; guards against schemas that
    /// never end.
    pub depth: u8,
}

impl<'fmt, 'ty, 'out> Ctxt<'fmt, 'ty, 'out> {
    /// What the context knows, apart from where it writes.
    pub open spec fn spec_frame(&self) -> Frame<'ty> {
        Frame {
            ty: self.ty,
            val: self.val,
            vis: self.vis,
            fmt: *self.fmt,
            is_key: self.is_key,
            parent: self.parent,
            example: self.example,
            flat: self.flat,
            depth: self.depth,
        }
    }

    /// What the context knows, apart from where it writes.
    #[verifier::when_used_as_spec(spec_frame)]
    pub fn frame(&self) -> (r: Frame<'ty>)
        ensures
            r == self.spec_frame(),
    {
        Frame {
            ty: self.ty,
            val: self.val,
            vis: self.vis,
            fmt: *self.fmt,
            is_key: self.is_key,
            parent: self.parent,
            example: self.example,
            flat: self.flat,
            depth: self.depth,
        }
    }

    /// The indent can grow by one level for each level that the walk may
    /// still go down, and once more.
    pub open spec fn has_room(&self) -> bool {
        self.out.indent + INDENT * (MAX_DEPTH - self.depth + 1) <= usize::MAX
    }

    /// The same context one level further down, writing to the same output.
    /// The context no longer stands for a key.
    pub fn nested<'out2>(&'out2 mut self) -> (r: Ctxt<'fmt, 'ty, 'out2>)
        requires
            old(self).depth < MAX_DEPTH,
        ensures
            r.frame() == old(self).frame().nested(),
            r.depth == old(self).depth + 1,
            *r.out == *old(self).out,
            *final(self).out == *final(r.out),
            *final(final(self).out) == *final(old(self).out),
            final(self).frame() == old(self).frame(),
    {
        Ctxt {
            ty: self.ty,
            val: self.val,
            vis: self.vis,
            fmt: self.fmt,
            out: self.out,
            is_key: false,
            parent: self.parent,
            example: self.example,
            flat: self.flat,
            depth: self.depth + 1,
        }
    }

    /// The context at the node `ty`, come from the present node. The example
    /// handed down is dropped. A flat rendering goes on only where the
    /// present node is a transparent struct: the fields of a flattened
    /// field's type are not flattened in their turn.
    pub fn with_ty(self, ty: &'ty Type) -> (r: Self)
        ensures
            r.frame() == self.frame().with_ty(ty),
            r.out == self.out,
    {
        let mut this = self;
        let keep_flat = match this.ty.kind {
            TypeKind::Struct { transparent, .. } => transparent,
            _ => false,
        };
        this.parent = Some(this.ty);
        this.ty = ty;
        this.flat = this.flat && keep_flat;
        this.example = None;
        this
    }

    /// The context with another sample value, or with none.
    pub fn with_val(self, val: Option<&'ty Value>) -> (r: Self)
        ensures
            r.frame() == self.frame().with_val(val),
            r.out == self.out,
    {
        let mut this = self;
        this.val = val;
        this
    }

    /// The context under other rendering choices. It no longer stands for a
    /// key.
    pub fn with_fmt<'fmt2>(self, fmt: &'fmt2 Formatting) -> (r: Ctxt<'fmt2, 'ty, 'out>)
        ensures
            r.frame() == self.frame().with_fmt(*fmt),
            *r.out == *old(self.out),
            *final(r.out) == *final(self.out),
    {
        Ctxt {
            ty: self.ty,
            val: self.val,
            vis: self.vis,
            fmt,
            out: self.out,
            is_key: false,
            parent: self.parent,
            example: self.example,
            flat: self.flat,
            depth: self.depth,
        }
    }

    /// The context with another example handed down, or with none.
    pub fn with_example(self, example: Option<Example>) -> (r: Self)
        ensures
            r.frame() == self.frame().with_example(example),
            r.out == self.out,
    {
        let mut this = self;
        this.example = example;
        this
    }

    /// The context for a flat rendering.
    pub fn with_flat(self) -> (r: Self)
        ensures
            r.frame() == self.frame().with_flat(),
            r.out == self.out,
    {
        let mut this = self;
        this.flat = true;
        this
    }

    /// The context for the key of a map entry.
    pub fn set_is_key(self) -> (r: Self)
        ensures
            r.frame() == self.frame().set_is_key(),
            r.out == self.out,
    {
        let mut this = self;
        this.is_key = true;
        this
    }

    /// The example of the node: the one handed down, or else the node's own.
    pub fn example(&self) -> (r: Option<Example>)
        ensures
            r == self.frame().example(),
    {
        self.frame().example()
    }

    /// The first value that the node's example offers.
    pub fn first_example(&self) -> (r: Option<&'static str>)
        ensures
            r == self.frame().first_example(),
    {
        self.frame().first_example()
    }

    /// The text of the node's example, where that example is a literal.
    pub fn literal_example(&self) -> (r: Option<&'static str>)
        ensures
            r == self.frame().literal_example(),
    {
        match self.example() {
            Some(example) => {
                if let Example::Literal(example) = example {
                    Some(example)
                } else {
                    None
                }
            },
            None => None,
        }
    }

    /// Renders the node. A node that is not shown leaves the output as it
    /// is. Any other node is written under the rendering choices that its
    /// own formatting annotations give.
    ///
    /// The walk must be known to meet no fault, which `Frame::check` finds
    /// out; `try_print` asks first and renders only then.
    pub fn print(self)
        requires
            fault(self.frame()) is None,
            self.has_room(),
        ensures
            wrote(*old(self.out), *final(self.out), script(self.frame())),
            final(self.out).indent == old(self.out).indent,
        decreases MAX_DEPTH - self.depth, 6nat, 0nat,
    {
        self.print_labelled(None)
    }

    /// Renders the node where it can be rendered, and otherwise says why it
    /// cannot and leaves the output as it is.
    pub fn try_print(self) -> (r: Result<(), PrintError>)
        requires
            self.has_room(),
        ensures
            match r {
                Ok(_) => fault(self.frame()) is None && wrote(
                    *old(self.out),
                    *final(self.out),
                    script(self.frame()),
                ),
                Err(e) => fault(self.frame()) == Some(e) && *final(self.out) == *old(self.out),
            },
            final(self.out).indent == old(self.out).indent,
    {
        let this = self;
        match this.frame().check() {
            Err(e) => Err(e),
            Ok(_) => {
                this.print();
                Ok(())
            },
        }
    }

    /// Renders the node; with a label, a struct at the node shows the tag
    /// field before its own fields.
    pub fn print_labelled(self, label: Option<Label>)
        requires
            fault_with(self.frame(), label) is None,
            self.has_room(),
        ensures
            wrote(*old(self.out), *final(self.out), script_with(self.frame(), label)),
            final(self.out).indent == old(self.out).indent,
        decreases MAX_DEPTH - self.depth, 5nat, 0nat,
    {
        let this = self;
        if !this.frame().shown() {
            return ;
        }
        if requires_custom_formatting(&this.ty.metas) {
            let fmt = this.fmt.customize(&this.ty.metas);
            this.with_fmt(&fmt).print_inner(label);
        } else {
            this.print_inner(label);
        }
    }

    /// Writes the comment of the node, and below it the literal example as
    /// it is, or else what the kind of the node asks for.
    pub fn print_inner(self, label: Option<Label>)
        requires
            inner_fault(self.frame(), label) is None,
            self.has_room(),
        ensures
            wrote(*old(self.out), *final(self.out), inner_script(self.frame(), label)),
            final(self.out).indent == old(self.out).indent,
        decreases MAX_DEPTH - self.depth, 4nat, 0nat,
    {
        let mut this = self;
        let f = this.frame();
        let ghost start = this.out@;
        let ghost head = comment_ops(f);
        match this.ty.comment {
            Some(comment) => {
                this.out.comment(comment);
                proof {
                    lemma_run_one(start, Op::Comment(comment@));
                }
            },
            None => {},
        }
        if let Some(example) = this.literal_example() {
            this.out.write(example);
            proof {
                lemma_run_push(start, head, Op::Write(example@));
                assert(head.push(Op::Write(example@)) =~= inner_script(f, label));
            }
            return ;
        }
        proof {
            lemma_run_concat(start, head, kind_script(f, label));
        }
        let ty = this.ty;
        match &ty.kind {
            TypeKind::Array { ty, size } => this.print_array(&**ty, *size),
            TypeKind::Enum { tag, variants } => this.print_enum(*tag, variants),
            TypeKind::Struct { fields, transparent } => this.print_struct(
                fields,
                *transparent,
                label,
            ),
            TypeKind::Tuple { fields } => this.print_tuple(fields),
            TypeKind::Mapping { key, value } => this.print_map(&**key, &**value),
            TypeKind::Optional { ty } => this.print_optional(&**ty),
            _ => this.print_scalar(),
        }
    }

    /// What stands for a value of the node's kind where no example says
    /// more.
    fn placeholder(&self) -> (r: &'static str)
        ensures
            r@ == placeholder(self.ty.kind),
    {
        match self.ty.kind {
            TypeKind::Bool => "true",
            TypeKind::Float => "123.45",
            TypeKind::Integer => "123",
            _ => "string",
        }
    }

    /// Writes the token of a scalar node: the first value of its example, or
    /// else the placeholder of its kind; between double quotes where the
    /// node is a string or stands as a key.
    pub fn print_scalar(self)
        ensures
            wrote(*old(self.out), *final(self.out), seq![Op::Write(scalar_text(self.frame()))]),
            final(self.out).indent == old(self.out).indent,
    {
        let this = self;
        let base = match this.first_example() {
            Some(example) => example,
            None => this.placeholder(),
        };
        let is_string = match this.ty.kind {
            TypeKind::String => true,
            _ => false,
        };
        if is_string || this.is_key {
            this.out.write_quoted(base);
        } else {
            this.out.write(base);
            proof {
                lemma_run_one(old(self.out)@, Op::Write(base@));
            }
        }
    }

    /// Renders an optional value: the hint, where that is switched on, and
    /// the value inside, to which the optional's example is handed on. With
    /// the hint switched off, an optional of which the sample says nothing
    /// is left out.
    pub fn print_optional(self, ty: &'ty Type)
        requires
            optional_fault(self.frame(), ty) is None,
            self.has_room(),
        ensures
            wrote(*old(self.out), *final(self.out), optional_script(self.frame(), ty)),
            final(self.out).indent == old(self.out).indent,
        decreases MAX_DEPTH - self.depth, 2nat, 0nat,
    {
        let mut this = self;
        let f = this.frame();
        let ghost start = this.out@;
        if f.omitted() {
            return ;
        }
        if this.fmt.auto_comments.optional {
            this.out.comment("Optional");
            proof {
                lemma_run_one(start, Op::Comment("Optional"@));
            }
        }
        proof {
            lemma_run_concat(start, optional_hint(f), script(inner_frame(f, ty)));
        }
        let example = this.example();
        let val = inner_of(this.val);
        this.nested().with_ty(ty).with_val(val).with_example(example).print();
    }
}

} // verus!
