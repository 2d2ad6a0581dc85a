//! The printers for structs and tuples.

use vstd::prelude::*;
use crate::ctxt::Ctxt;
use crate::entries::{
    field_produces, fields_produce, items_produce, spec_items_produce, splices,
};
use crate::frame::MAX_DEPTH;
use crate::output::{lemma_run_concat, lemma_run_one, Op, INDENT};
use crate::pen::wrote;
use crate::schema::{Field, Type};
use crate::script::{
    block_close, block_open, brace_close, brace_open, field_frame, field_script, fields_fault,
    fields_script, items_fault, items_script, key_text, script, sep, struct_fault, struct_script,
    tag_entry, tuple_script, Label,
};
use crate::value::field_of;

verus! {

impl<'fmt, 'ty, 'out> Ctxt<'fmt, 'ty, 'out> {
    /// Renders a struct. A transparent struct is written as its first field
    /// is. Any other struct shows the tag field, if it has a label, and its
    /// fields in their order, with a comma between two entries, between
    /// braces unless the context is flat. The fields of a flattened field's
    /// type take the place of that field.
    pub fn print_struct(self, fields: &'ty Vec<Field>, transparent: bool, label: Option<Label>)
        requires
            struct_fault(self.frame(), fields@, transparent) is None,
            self.has_room(),
        ensures
            wrote(
                *old(self.out),
                *final(self.out),
                struct_script(self.frame(), fields@, transparent, label),
            ),
            final(self.out).indent == old(self.out).indent,
        decreases MAX_DEPTH - self.depth, 2nat, 0nat,
    {
        let mut this = self;
        let f = this.frame();
        let ghost start = this.out@;
        let ghost fin = *final(this.out);
        if transparent {
            if fields.len() > 0 {
                let val = this.val;
                this.nested().with_ty(&fields[0].ty).with_val(val).print();
            }
            return ;
        }
        let tagged = fields_produce(f, fields, 0);
        this.out.open_braces(this.flat);
        this.out.write_tag_entry(label, tagged);
        let ghost head = brace_open(f.flat) + tag_entry(label, tagged);
        proof {
            lemma_run_concat(start, brace_open(f.flat), tag_entry(label, tagged));
        }
        let ghost mid = this.out@;
        let ghost mut acc: Seq<Op> = Seq::empty();
        let mut i: usize = 0;
        while i < fields.len()
            invariant
                i <= fields@.len(),
                f == self.frame(),
                this.frame() == f,
                *final(this.out) == fin,
                this.out@ == mid.run(acc),
                this.out.fmt == old(self.out).fmt,
                this.out.indent + INDENT * (MAX_DEPTH - f.depth) <= usize::MAX,
                f.flat ==> this.out.indent == old(self.out).indent,
                !f.flat ==> this.out.indent == old(self.out).indent + INDENT,
                fields_fault(f, fields@, i as nat) is None,
                acc + fields_script(f, fields@, i as nat) == fields_script(f, fields@, 0),
            decreases fields@.len() - i,
        {
            let field = &fields[i];
            let c = field_frame(f, field);
            let val = field_of(this.val, field.name);
            let spliced = field.flattened && splices(c);
            let entry = !spliced && c.shown();
            let more = field_produces(f, field) && fields_produce(f, fields, i + 1);
            let ghost before = this.out@;
            let ghost body = script(c);
            let ghost piece = field_script(f, field, body);
            if entry {
                this.out.begin_entry(field.name);
                proof {
                    lemma_run_concat(
                        before,
                        seq![Op::Line, Op::Write(key_text(field.name@))],
                        body,
                    );
                }
            }
            if spliced || entry {
                let child = this.nested().with_ty(&field.ty).with_val(val);
                if field.flattened {
                    child.with_flat().print();
                } else {
                    child.print();
                }
            }
            this.out.write_sep(more);
            proof {
                lemma_run_concat(before, piece, sep(more));
                lemma_run_concat(mid, acc, piece + sep(more));
                assert((acc + (piece + sep(more))) + fields_script(f, fields@, (i + 1) as nat)
                    =~= acc + fields_script(f, fields@, i as nat));
                acc = acc + (piece + sep(more));
            }
            i = i + 1;
        }
        proof {
            assert(acc =~= fields_script(f, fields@, 0));
            lemma_run_concat(start, head, acc);
        }
        this.out.close_braces(this.flat);
        proof {
            lemma_run_concat(start, head + acc, brace_close(f.flat));
        }
    }

    /// Renders a tuple: its fields in their order between square brackets,
    /// each on a line of its own, with a comma between two of them.
    pub fn print_tuple(self, fields: &'ty Vec<Type>)
        requires
            items_fault(self.frame(), fields@, 0) is None,
            self.has_room(),
        ensures
            wrote(*old(self.out), *final(self.out), tuple_script(self.frame(), fields@)),
            final(self.out).indent == old(self.out).indent,
        decreases MAX_DEPTH - self.depth, 2nat, 0nat,
    {
        let mut this = self;
        let f = this.frame();
        let ghost start = this.out@;
        let ghost fin = *final(this.out);
        this.out.open_block("[");
        let ghost mid = this.out@;
        let ghost mut acc: Seq<Op> = Seq::empty();
        let mut i: usize = 0;
        while i < fields.len()
            invariant
                i <= fields@.len(),
                f == self.frame(),
                this.frame() == f,
                *final(this.out) == fin,
                this.out@ == mid.run(acc),
                this.out.fmt == old(self.out).fmt,
                this.out.indent == old(self.out).indent + INDENT,
                this.out.indent + INDENT * (MAX_DEPTH - f.depth) <= usize::MAX,
                items_fault(f, fields@, i as nat) is None,
                acc + items_script(f, fields@, i as nat) == items_script(f, fields@, 0),
            decreases fields@.len() - i,
        {
            let c = f.child(&fields[i]);
            let ghost before = this.out@;
            let ghost more = spec_items_produce(f, fields@, (i + 1) as nat);
            let ghost piece = if c.shown() {
                seq![Op::Line] + script(c) + sep(more)
            } else {
                Seq::<Op>::empty()
            };
            if c.shown() {
                this.out.ln();
                proof {
                    lemma_run_one(before, Op::Line);
                    lemma_run_concat(before, seq![Op::Line], script(c));
                }
                this.nested().with_ty(&fields[i]).print();
                this.out.write_sep(items_produce(f, fields, i + 1));
                proof {
                    lemma_run_concat(before, seq![Op::Line] + script(c), sep(more));
                }
            }
            proof {
                lemma_run_concat(mid, acc, piece);
                assert((acc + piece) + items_script(f, fields@, (i + 1) as nat) =~= acc
                    + items_script(f, fields@, i as nat));
                acc = acc + piece;
            }
            i = i + 1;
        }
        this.out.close_block("]");
        proof {
            assert(acc =~= items_script(f, fields@, 0));
            lemma_run_concat(start, block_open("["@), acc);
            lemma_run_concat(start, block_open("["@) + acc, block_close("]"@));
        }
    }
}

} // verus!
