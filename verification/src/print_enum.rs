//! The printer for enums.

use vstd::prelude::*;
use crate::ctxt::Ctxt;
use crate::frame::MAX_DEPTH;
use crate::output::{lemma_run_concat, Op};
use crate::pen::wrote;
use crate::schema::{Tag, Variant};
use crate::script::{
    block_close, block_open, entry_ops, enum_fault, enum_script, key_text, label_ops,
    payload_frame, script, sep, variant_fault, variant_script, Label,
};
use crate::value::{live, payload_of};

verus! {

impl<'fmt, 'ty, 'out> Ctxt<'fmt, 'ty, 'out> {
    /// Renders an enum by one of its variants: the one that the sample
    /// names, or else the first. An enum without variants leaves nothing.
    pub fn print_enum(self, tag: Tag, variants: &'ty Vec<Variant>)
        requires
            enum_fault(self.frame(), tag, variants@) is None,
            self.has_room(),
        ensures
            wrote(*old(self.out), *final(self.out), enum_script(self.frame(), tag, variants@)),
            final(self.out).indent == old(self.out).indent,
        decreases MAX_DEPTH - self.depth, 2nat, 0nat,
    {
        let this = self;
        if variants.len() == 0 {
            return ;
        }
        let k: usize = live(variants, this.val);
        this.print_variant(tag, &variants[k])
    }

    /// Renders one variant under a tag strategy. Untagged, the payload
    /// stands alone. Tagged from outside, it is the one entry of an object,
    /// under the variant's name. Tagged from inside, the payload shows the
    /// tag field before its own fields. Tagged beside, an object holds the
    /// tag field and the payload under the content name.
    pub fn print_variant(self, tag: Tag, v: &'ty Variant)
        requires
            variant_fault(self.frame(), tag, v) is None,
            self.has_room(),
        ensures
            wrote(*old(self.out), *final(self.out), variant_script(self.frame(), tag, v)),
            final(self.out).indent == old(self.out).indent,
        decreases MAX_DEPTH - self.depth, 0nat, 0nat,
    {
        let mut this = self;
        let f = this.frame();
        let ghost start = this.out@;
        let p = payload_frame(f, v);
        let val = payload_of(this.val, v.name);
        match tag {
            Tag::Untagged => {
                this.nested().with_ty(&v.payload).with_val(val).print();
            },
            Tag::Internal { tag } => {
                this.nested().with_ty(&v.payload).with_val(val).print_labelled(
                    Some(Label { tag, name: v.name }),
                );
            },
            Tag::External => {
                this.out.open_block("{");
                let ghost mid = this.out@;
                let ghost entry = if p.shown() {
                    entry_ops(v.name@, script(p))
                } else {
                    Seq::<Op>::empty()
                };
                if p.shown() {
                    this.out.begin_entry(v.name);
                    proof {
                        lemma_run_concat(
                            mid,
                            seq![Op::Line, Op::Write(key_text(v.name@))],
                            script(p),
                        );
                    }
                    this.nested().with_ty(&v.payload).with_val(val).print();
                }
                this.out.close_block("}");
                proof {
                    lemma_run_concat(start, block_open("{"@), entry);
                    lemma_run_concat(start, block_open("{"@) + entry, block_close("}"@));
                }
            },
            Tag::Adjacent { tag, content } => {
                let label = Label { tag, name: v.name };
                this.out.open_block("{");
                this.out.write_label(label);
                let ghost head = block_open("{"@) + label_ops(label);
                proof {
                    lemma_run_concat(start, block_open("{"@), label_ops(label));
                }
                let ghost mid = this.out@;
                let ghost entry = if p.shown() {
                    sep(true) + entry_ops(content@, script(p))
                } else {
                    Seq::<Op>::empty()
                };
                if p.shown() {
                    let ghost a = sep(true) + seq![Op::Line, Op::Write(key_text(content@))];
                    this.out.write_sep(true);
                    this.out.begin_entry(content);
                    proof {
                        lemma_run_concat(
                            mid,
                            sep(true),
                            seq![Op::Line, Op::Write(key_text(content@))],
                        );
                        lemma_run_concat(mid, a, script(p));
                        assert(a + script(p) =~= entry);
                    }
                    this.nested().with_ty(&v.payload).with_val(val).print();
                }
                this.out.close_block("}");
                proof {
                    lemma_run_concat(start, head, entry);
                    lemma_run_concat(start, head + entry, block_close("}"@));
                }
            },
        }
    }
}

} // verus!
