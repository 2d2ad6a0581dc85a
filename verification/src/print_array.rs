//! The printer for arrays.

use vstd::prelude::*;
use crate::ctxt::Ctxt;
use crate::frame::MAX_DEPTH;
use crate::output::{lemma_run_concat, lemma_run_one, Op, INDENT};
use crate::pen::wrote;
use crate::schema::{Type, TypeKind};
use crate::script::{
    array_close, array_fault, array_open, array_rest, array_script, element, expands,
    full_literal, is_inline, item_begin, item_end, item_sep, script, size_comment, tag_of,
    variant_script, variants_fault, variants_of, variants_script,
};

verus! {

impl<'fmt, 'ty, 'out> Ctxt<'fmt, 'ty, 'out> {
    /// Renders an array with the element `ty`.
    ///
    /// An example can stand for a single element, or for the whole array:
    /// one that begins with an opening square bracket is written as it is,
    /// and nothing else is. Otherwise the array has its size hint, its
    /// brackets, and between them either one entry for each variant of its
    /// element or one entry and the mark for the rest. An array whose
    /// element is not shown leaves nothing.
    pub fn print_array(self, ty: &'ty Type, size: Option<usize>)
        requires
            array_fault(self.frame(), ty) is None,
            self.has_room(),
        ensures
            wrote(*old(self.out), *final(self.out), array_script(self.frame(), ty, size)),
            final(self.out).indent == old(self.out).indent,
        decreases MAX_DEPTH - self.depth, 2nat, 0nat,
    {
        let mut this = self;
        let f = this.frame();
        let ghost start = this.out@;
        let c = element(f, ty);
        if !c.shown() {
            return ;
        }
        if let Some(example) = full_literal(f) {
            this.out.write(example);
            proof {
                lemma_run_one(start, Op::Write(example@));
            }
            return ;
        }
        let inline = is_inline(f, size);
        this.out.open_array(this.fmt.auto_comments.array_size, size, inline);
        let ghost head = size_comment(f.fmt.auto_comments.array_size, size) + array_open(inline);
        let ghost body = if expands(f, ty) {
            variants_script(c.customized(), tag_of(ty), variants_of(ty), inline, 0)
        } else {
            item_begin(inline) + script(c) + item_end(inline) + array_rest(f.fmt.ellipsis@, inline)
        };
        if !this.expand_variants(ty, inline) {
            let ghost before = this.out@;
            this.out.begin_item(inline);
            let example = this.example();
            this.nested().with_ty(ty).with_example(example).print();
            this.out.end_item(inline);
            this.out.write_rest(this.fmt.ellipsis, inline);
            proof {
                let a = item_begin(inline) + script(c);
                let b = a + item_end(inline);
                lemma_run_concat(before, item_begin(inline), script(c));
                lemma_run_concat(before, a, item_end(inline));
                lemma_run_concat(before, b, array_rest(f.fmt.ellipsis@, inline));
            }
        }
        this.out.close_array(inline);
        proof {
            lemma_run_concat(start, head, body);
            lemma_run_concat(start, head + body, array_close(inline));
        }
    }

    /// Where the array shows one entry for each variant of its element,
    /// writes these entries and says so; otherwise writes nothing.
    pub fn expand_variants(&mut self, ty: &'ty Type, inline: bool) -> (r: bool)
        requires
            old(self).depth < MAX_DEPTH,
            old(self).out.indent + INDENT * (MAX_DEPTH - old(self).depth) <= usize::MAX,
            expands(old(self).frame(), ty) ==> variants_fault(
                element(old(self).frame(), ty).customized(),
                tag_of(ty),
                variants_of(ty),
                0,
            ) is None,
        ensures
            r == expands(old(self).frame(), ty),
            final(self).frame() == old(self).frame(),
            wrote(
                *old(self).out,
                *final(self).out,
                if r {
                    variants_script(
                        element(old(self).frame(), ty).customized(),
                        tag_of(ty),
                        variants_of(ty),
                        inline,
                        0,
                    )
                } else {
                    Seq::empty()
                },
            ),
            final(self).out.indent == old(self).out.indent,
            *final(final(self).out) == *final(old(self).out),
        decreases MAX_DEPTH - old(self).depth, 1nat, 0nat,
    {
        let f = self.frame();
        if !expands(f, ty) {
            return false;
        }
        let ghost fin = *final(self.out);
        let ghost start = self.out@;
        let e = element(f, ty).customized();
        let fmt = e.fmt;
        let example = self.example();
        let ghost mut acc: Seq<Op> = Seq::empty();
        match &ty.kind {
            TypeKind::Enum { tag, variants } => {
                let mut i: usize = 0;
                while i < variants.len()
                    invariant
                        i <= variants@.len(),
                        f == old(self).frame(),
                        self.frame() == f,
                        f.depth < MAX_DEPTH,
                        e == element(f, ty).customized(),
                        fmt == e.fmt,
                        example == f.example(),
                        *tag == tag_of(ty),
                        variants@ == variants_of(ty),
                        *final(self.out) == fin,
                        self.out@ == start.run(acc),
                        self.out.fmt == old(self).out.fmt,
                        self.out.indent == old(self).out.indent,
                        self.out.indent + INDENT * (MAX_DEPTH - f.depth) <= usize::MAX,
                        variants_fault(e, *tag, variants@, i as nat) is None,
                        acc + variants_script(e, *tag, variants@, inline, i as nat)
                            == variants_script(e, *tag, variants@, inline, 0),
                    decreases variants@.len() - i,
                {
                    let ghost before = self.out@;
                    let ghost body = variant_script(e, *tag, &variants@[i as int]);
                    let more = i + 1 < variants.len();
                    let ghost piece = item_begin(inline) + body + item_sep(inline, more);
                    self.out.begin_item(inline);
                    proof {
                        lemma_run_concat(before, item_begin(inline), body);
                    }
                    self.nested().with_ty(ty).with_example(example).with_fmt(&fmt).print_variant(
                        *tag,
                        &variants[i],
                    );
                    self.out.write_item_sep(inline, more);
                    proof {
                        lemma_run_concat(before, item_begin(inline) + body, item_sep(inline, more));
                        lemma_run_concat(start, acc, piece);
                        assert((acc + piece) + variants_script(
                            e,
                            *tag,
                            variants@,
                            inline,
                            (i + 1) as nat,
                        ) =~= acc + variants_script(e, *tag, variants@, inline, i as nat));
                        acc = acc + piece;
                    }
                    i = i + 1;
                }
                proof {
                    assert(acc =~= variants_script(e, *tag, variants@, inline, 0));
                }
            },
            _ => {},
        }
        true
    }
}

} // verus!
