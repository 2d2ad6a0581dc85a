//! The printer for maps.

use vstd::prelude::*;
use crate::ctxt::Ctxt;
use crate::frame::MAX_DEPTH;
use crate::output::{lemma_run_concat, lemma_run_one, lemma_run_push, Op};
use crate::pen::wrote;
use crate::schema::Type;
use crate::script::{block_close, block_open, map_fault, map_script, script};

verus! {

impl<'fmt, 'ty, 'out> Ctxt<'fmt, 'ty, 'out> {
    /// Renders a map: one entry, whose key is rendered as a key, and the
    /// mark for the rest, between braces. Where the key or the value is not
    /// shown, the entry is left out.
    pub fn print_map(self, key: &'ty Type, value: &'ty Type)
        requires
            map_fault(self.frame(), key, value) is None,
            self.has_room(),
        ensures
            wrote(*old(self.out), *final(self.out), map_script(self.frame(), key, value)),
            final(self.out).indent == old(self.out).indent,
        decreases MAX_DEPTH - self.depth, 2nat, 0nat,
    {
        let mut this = self;
        let f = this.frame();
        let ghost start = this.out@;
        let k = f.child(key).set_is_key();
        let v = f.child(value);
        this.out.open_block("{");
        let ghost mid = this.out@;
        let ghost entry = if k.shown() && v.shown() {
            seq![Op::Line] + script(k) + seq![Op::Write(": "@)] + script(v) + seq![Op::Write(","@)]
        } else {
            Seq::<Op>::empty()
        };
        if k.shown() && v.shown() {
            let ghost a = seq![Op::Line] + script(k);
            let ghost b = a.push(Op::Write(": "@));
            this.out.ln();
            proof {
                lemma_run_one(mid, Op::Line);
                lemma_run_concat(mid, seq![Op::Line], script(k));
            }
            this.nested().with_ty(key).set_is_key().print();
            this.out.write(": ");
            proof {
                lemma_run_push(mid, a, Op::Write(": "@));
                lemma_run_concat(mid, b, script(v));
            }
            this.nested().with_ty(value).print();
            this.out.write(",");
            proof {
                lemma_run_push(mid, b + script(v), Op::Write(","@));
                assert((b + script(v)).push(Op::Write(","@)) =~= entry);
            }
        }
        let ghost rest = seq![Op::Line, Op::Write(f.fmt.ellipsis@)];
        this.out.ln();
        this.out.write(this.fmt.ellipsis);
        this.out.close_block("}");
        proof {
            lemma_run_push(mid, entry, Op::Line);
            lemma_run_push(mid, entry.push(Op::Line), Op::Write(f.fmt.ellipsis@));
            assert(entry.push(Op::Line).push(Op::Write(f.fmt.ellipsis@)) =~= entry + rest);
            lemma_run_concat(start, block_open("{"@), entry + rest);
            lemma_run_concat(start, block_open("{"@) + (entry + rest), block_close("}"@));
            assert(block_open("{"@) + (entry + rest) + block_close("}"@) =~= map_script(
                f,
                key,
                value,
            ));
        }
    }
}

} // verus!
