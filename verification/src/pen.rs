//! The phrases that the printers share: keys, quoted names, blocks.

use vstd::prelude::*;
use vstd::string::*;
use crate::output::{lemma_run_concat, lemma_run_one, lemma_run_push, Op, Output, INDENT};
use crate::script::{
    array_close, array_open, array_rest, block_close, block_open, brace_close, brace_open,
    item_begin, item_end, item_sep, key_text, label_ops, quoted, sep, size_comment, size_text,
    tag_entry, Label,
};
use crate::text::to_decimal;

verus! {

/// What came of `before` when `ops` were carried out on it: the lines and
/// the indent that the operations give, under the same rendering choices.
pub open spec fn wrote(before: Output, after: Output, ops: Seq<Op>) -> bool {
    after@ == before@.run(ops) && after.fmt == before.fmt
}

impl Output {
    /// Writes the start of an entry: the name between double quotes, a colon
    /// and a space.
    pub fn write_key(&mut self, name: &str)
        ensures
            wrote(*old(self), *final(self), seq![Op::Write(key_text(name@))]),
            final(self).indent == old(self).indent,
    {
        let mut s = String::from_str("\"");
        s.append(name);
        s.append("\": ");
        self.write(s.as_str());
        proof {
            lemma_run_one(old(self)@, Op::Write(key_text(name@)));
        }
    }

    /// Writes `text` between double quotes.
    pub fn write_quoted(&mut self, text: &str)
        ensures
            wrote(*old(self), *final(self), seq![Op::Write(quoted(text@))]),
            final(self).indent == old(self).indent,
    {
        let mut s = String::from_str("\"");
        s.append(text);
        s.append("\"");
        self.write(s.as_str());
        proof {
            lemma_run_one(old(self)@, Op::Write(quoted(text@)));
        }
    }

    /// Starts an entry: a line that begins with the key.
    pub fn begin_entry(&mut self, name: &str)
        ensures
            wrote(*old(self), *final(self), seq![Op::Line, Op::Write(key_text(name@))]),
            final(self).indent == old(self).indent,
    {
        let ghost start = self@;
        self.ln();
        self.write_key(name);
        proof {
            lemma_run_one(start, Op::Line);
            lemma_run_concat(start, seq![Op::Line], seq![Op::Write(key_text(name@))]);
            assert(seq![Op::Line] + seq![Op::Write(key_text(name@))] =~= seq![
                Op::Line,
                Op::Write(key_text(name@)),
            ]);
        }
    }

    /// Writes the entry that holds the tag field.
    pub fn write_label(&mut self, label: Label)
        ensures
            wrote(*old(self), *final(self), label_ops(label)),
            final(self).indent == old(self).indent,
    {
        let ghost start = self@;
        let ghost a = seq![Op::Line, Op::Write(key_text(label.tag@))];
        self.begin_entry(label.tag);
        self.write_quoted(label.name);
        proof {
            lemma_run_concat(start, a, seq![Op::Write(quoted(label.name@))]);
            assert(a + seq![Op::Write(quoted(label.name@))] =~= label_ops(label));
        }
    }

    /// Writes the comma between two entries, where another entry follows.
    pub fn write_sep(&mut self, more: bool)
        ensures
            wrote(*old(self), *final(self), sep(more)),
            final(self).indent == old(self).indent,
    {
        if more {
            self.write(",");
            proof {
                lemma_run_one(old(self)@, Op::Write(","@));
            }
        }
    }

    /// Writes the entry that holds the tag field, where there is one, with a
    /// comma behind it where another entry follows.
    pub fn write_tag_entry(&mut self, label: Option<Label>, more: bool)
        ensures
            wrote(*old(self), *final(self), tag_entry(label, more)),
            final(self).indent == old(self).indent,
    {
        let ghost start = self@;
        match label {
            Some(l) => {
                self.write_label(l);
                self.write_sep(more);
                proof {
                    lemma_run_concat(start, label_ops(l), sep(more));
                }
            },
            None => {},
        }
    }

    /// Opens the braces of a struct, unless the struct is rendered flat.
    pub fn open_braces(&mut self, flat: bool)
        requires
            !flat ==> old(self).indent + INDENT <= usize::MAX,
        ensures
            wrote(*old(self), *final(self), brace_open(flat)),
            flat ==> final(self).indent == old(self).indent,
            !flat ==> final(self).indent == old(self).indent + INDENT,
    {
        if !flat {
            self.open_block("{");
        }
    }

    /// Closes the braces of a struct, unless the struct is rendered flat.
    pub fn close_braces(&mut self, flat: bool)
        requires
            !flat ==> old(self).indent >= INDENT,
        ensures
            wrote(*old(self), *final(self), brace_close(flat)),
            flat ==> final(self).indent == old(self).indent,
            !flat ==> final(self).indent == old(self).indent - INDENT,
    {
        if !flat {
            self.close_block("}");
        }
    }

    /// Opens a block: writes the bracket and moves what follows one level to
    /// the right.
    pub fn open_block(&mut self, bracket: &str)
        requires
            old(self).indent + INDENT <= usize::MAX,
        ensures
            wrote(*old(self), *final(self), block_open(bracket@)),
            final(self).indent == old(self).indent + INDENT,
    {
        let ghost start = self@;
        let ghost a = seq![Op::Write(bracket@)];
        self.write(bracket);
        self.inc_indent();
        proof {
            lemma_run_one(start, Op::Write(bracket@));
            lemma_run_push(start, a, Op::Indent);
            assert(a.push(Op::Indent) =~= block_open(bracket@));
        }
    }

    /// Closes a block: moves back one level and writes the bracket on a line
    /// of its own.
    pub fn close_block(&mut self, bracket: &str)
        requires
            old(self).indent >= INDENT,
        ensures
            wrote(*old(self), *final(self), block_close(bracket@)),
            final(self).indent == old(self).indent - INDENT,
    {
        let ghost start = self@;
        let ghost a = seq![Op::Dedent];
        let ghost b = a.push(Op::Line);
        self.dec_indent();
        self.ln();
        self.write(bracket);
        proof {
            lemma_run_one(start, Op::Dedent);
            lemma_run_push(start, a, Op::Line);
            lemma_run_push(start, b, Op::Write(bracket@));
            assert(b.push(Op::Write(bracket@)) =~= block_close(bracket@));
        }
    }

    /// Writes the hint on the size of an array as a comment.
    pub fn write_size_hint(&mut self, n: usize)
        ensures
            wrote(*old(self), *final(self), seq![Op::Comment(size_text(n as nat))]),
            final(self).indent == old(self).indent,
    {
        let mut s = String::from_str("Must contain exactly ");
        s.append(to_decimal(n).as_str());
        s.append(" elements");
        self.comment(s.as_str());
        proof {
            lemma_run_one(old(self)@, Op::Comment(size_text(n as nat)));
        }
    }

    /// Opens an array: the size hint, where the size is known and the hint
    /// is to be shown, and the bracket; on one line, or as a block.
    pub fn open_array(&mut self, show: bool, size: Option<usize>, inline: bool)
        requires
            !inline ==> old(self).indent + INDENT <= usize::MAX,
        ensures
            wrote(*old(self), *final(self), size_comment(show, size) + array_open(inline)),
            inline ==> final(self).indent == old(self).indent,
            !inline ==> final(self).indent == old(self).indent + INDENT,
    {
        let ghost start = self@;
        match size {
            Some(n) => {
                if show {
                    self.write_size_hint(n);
                }
            },
            None => {},
        }
        if inline {
            self.write("[ ");
            proof {
                lemma_run_push(start, size_comment(show, size), Op::Write("[ "@));
                assert(size_comment(show, size).push(Op::Write("[ "@)) =~= size_comment(show, size)
                    + array_open(inline));
            }
        } else {
            self.open_block("[");
            proof {
                lemma_run_concat(start, size_comment(show, size), array_open(inline));
            }
        }
    }

    /// Closes an array.
    pub fn close_array(&mut self, inline: bool)
        requires
            !inline ==> old(self).indent >= INDENT,
        ensures
            wrote(*old(self), *final(self), array_close(inline)),
            inline ==> final(self).indent == old(self).indent,
            !inline ==> final(self).indent == old(self).indent - INDENT,
    {
        if inline {
            self.write(" ]");
            proof {
                lemma_run_one(old(self)@, Op::Write(" ]"@));
            }
        } else {
            self.close_block("]");
        }
    }

    /// Writes what stands before an entry of an array.
    pub fn begin_item(&mut self, inline: bool)
        ensures
            wrote(*old(self), *final(self), item_begin(inline)),
            final(self).indent == old(self).indent,
    {
        if !inline {
            self.ln();
            proof {
                lemma_run_one(old(self)@, Op::Line);
            }
        }
    }

    /// Writes what stands between two entries of an array.
    pub fn end_item(&mut self, inline: bool)
        ensures
            wrote(*old(self), *final(self), item_end(inline)),
            final(self).indent == old(self).indent,
    {
        if inline {
            self.write(", ");
            proof {
                lemma_run_one(old(self)@, Op::Write(", "@));
            }
        } else {
            self.write(",");
            proof {
                lemma_run_one(old(self)@, Op::Write(","@));
            }
        }
    }

    /// Writes what stands behind an entry of an array: the separator, where
    /// another entry follows.
    pub fn write_item_sep(&mut self, inline: bool, more: bool)
        ensures
            wrote(*old(self), *final(self), item_sep(inline, more)),
            final(self).indent == old(self).indent,
    {
        if more {
            self.end_item(inline);
        }
    }

    /// Writes the mark for the entries of an array that are left out.
    pub fn write_rest(&mut self, ellipsis: &str, inline: bool)
        ensures
            wrote(*old(self), *final(self), array_rest(ellipsis@, inline)),
            final(self).indent == old(self).indent,
    {
        let ghost start = self@;
        if inline {
            self.write(ellipsis);
            proof {
                lemma_run_one(start, Op::Write(ellipsis@));
            }
        } else {
            self.ln();
            self.write(ellipsis);
            proof {
                lemma_run_one(start, Op::Line);
                lemma_run_push(start, seq![Op::Line], Op::Write(ellipsis@));
                assert(seq![Op::Line].push(Op::Write(ellipsis@)) =~= array_rest(ellipsis@, inline));
            }
        }
    }
}

} // verus!
