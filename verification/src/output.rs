//! The output model: lines with an indent, a body and comments, built by a
//! handful of writer operations.

use vstd::prelude::*;
use vstd::string::*;
use crate::formatting::Formatting;

verus! {

/// How far one level of nesting moves a line to the right.
pub const INDENT: usize = 2;

/// A line of output.
#[derive(Debug)]
pub struct Line {
    /// The position of the line among all lines, counted from zero.
    pub id: usize,
    /// How many spaces stand before the body and before each comment.
    pub indent: usize,
    pub body: String,
    /// The comments, which stand above the body, the first one on top.
    pub comments: Vec<String>,
}

/// What a line holds.
pub struct LineView {
    pub id: nat,
    pub indent: nat,
    pub body: Seq<char>,
    pub comments: Seq<Seq<char>>,
}

impl View for Line {
    type V = LineView;

    open spec fn view(&self) -> LineView {
        LineView {
            id: self.id as nat,
            indent: self.indent as nat,
            body: self.body@,
            comments: Seq::new(self.comments@.len(), |i: int| self.comments@[i]@),
        }
    }
}

/// The lines written so far, and the indent that the next line will get.
#[derive(Debug)]
pub struct Output {
    /// The choices that the layout follows.
    pub fmt: Formatting,
    pub lines: Vec<Line>,
    pub indent: usize,
}

/// What an output holds.
pub struct OutputView {
    pub lines: Seq<LineView>,
    pub indent: nat,
}

impl View for Output {
    type V = OutputView;

    open spec fn view(&self) -> OutputView {
        OutputView {
            lines: Seq::new(self.lines@.len(), |i: int| self.lines@[i]@),
            indent: self.indent as nat,
        }
    }
}

/// One writer operation.
pub enum Op {
    /// Adds text at the end of the last line's body.
    Write(Seq<char>),
    /// Adds a comment below the comments of the last line.
    Comment(Seq<char>),
    /// Starts a line at the present indent.
    Line,
    /// Moves the lines that follow one level to the right.
    Indent,
    /// Moves the lines that follow one level to the left.
    Dedent,
}

impl OutputView {
    /// An output without lines, at indent zero.
    pub open spec fn blank_page() -> OutputView {
        OutputView { lines: Seq::empty(), indent: 0 }
    }

    /// A line without body or comments at the present indent.
    pub open spec fn blank(self) -> LineView {
        LineView {
            id: self.lines.len(),
            indent: self.indent,
            body: Seq::empty(),
            comments: Seq::empty(),
        }
    }

    /// This output with a first line started, if it has none.
    pub open spec fn opened(self) -> OutputView {
        if self.lines.len() == 0 {
            OutputView { lines: seq![self.blank()], ..self }
        } else {
            self
        }
    }

    /// This output after one operation. Text and comments go to the last
    /// line; where there is no line yet, they start the first one.
    pub open spec fn step(self, op: Op) -> OutputView {
        match op {
            Op::Write(text) => {
                let o = self.opened();
                let last = o.lines.last();
                OutputView {
                    lines: o.lines.drop_last().push(LineView { body: last.body + text, ..last }),
                    ..o
                }
            },
            Op::Comment(text) => {
                let o = self.opened();
                let last = o.lines.last();
                OutputView {
                    lines: o.lines.drop_last().push(
                        LineView { comments: last.comments.push(text), ..last },
                    ),
                    ..o
                }
            },
            Op::Line => OutputView { lines: self.lines.push(self.blank()), ..self },
            Op::Indent => OutputView { indent: self.indent + INDENT as nat, ..self },
            Op::Dedent => OutputView {
                indent: if self.indent >= INDENT as nat {
                    (self.indent - INDENT as nat) as nat
                } else {
                    0
                },
                ..self
            },
        }
    }

    /// This output after the operations of `ops`, the first one first.
    pub open spec fn run(self, ops: Seq<Op>) -> OutputView
        decreases ops.len(),
    {
        if ops.len() == 0 {
            self
        } else {
            self.run(ops.drop_last()).step(ops.last())
        }
    }

    /// Every line is numbered by its position.
    pub open spec fn numbered(self) -> bool {
        forall|i: int| 0 <= i < self.lines.len() ==> (#[trigger] self.lines[i]).id == i
    }
}

/// Running one operation is taking one step.
pub proof fn lemma_run_one(o: OutputView, op: Op)
    ensures
        o.run(seq![op]) == o.step(op),
{
    assert(seq![op].drop_last() =~= Seq::<Op>::empty());
    assert(o.run(seq![op]) == o.run(seq![op].drop_last()).step(seq![op].last()));
}

/// Running `a` and `b` in a row is running `a`, and `b` on what comes of it.
pub proof fn lemma_run_concat(o: OutputView, a: Seq<Op>, b: Seq<Op>)
    ensures
        o.run(a + b) == o.run(a).run(b),
    decreases b.len(),
{
    if b.len() == 0 {
        assert(a + b =~= a);
    } else {
        lemma_run_concat(o, a, b.drop_last());
        assert((a + b).drop_last() =~= a + b.drop_last());
        assert((a + b).last() == b.last());
    }
}

/// Running `a` and one more operation is running `a` and taking one step.
pub proof fn lemma_run_push(o: OutputView, a: Seq<Op>, op: Op)
    ensures
        o.run(a.push(op)) == o.run(a).step(op),
{
    assert(a.push(op).drop_last() =~= a);
}

/// A step keeps the lines numbered by their position.
pub proof fn lemma_step_numbered(o: OutputView, op: Op)
    requires
        o.numbered(),
    ensures
        o.step(op).numbered(),
{
}

/// A run keeps the lines numbered by their position.
pub proof fn lemma_run_numbered(o: OutputView, ops: Seq<Op>)
    requires
        o.numbered(),
    ensures
        o.run(ops).numbered(),
    decreases ops.len(),
{
    if ops.len() > 0 {
        lemma_run_numbered(o, ops.drop_last());
        lemma_step_numbered(o.run(ops.drop_last()), ops.last());
    }
}

impl Output {
    /// An output without lines, at indent zero.
    pub fn new(fmt: Formatting) -> (r: Output)
        ensures
            r.fmt == fmt,
            r@ == OutputView::blank_page(),
    {
        let r = Output { fmt, lines: Vec::new(), indent: 0 };
        proof {
            assert(r@.lines =~= Seq::<LineView>::empty());
        }
        r
    }

    /// The lines in the order in which they were started.
    pub fn lines(&self) -> (r: &Vec<Line>)
        ensures
            r == &self.lines,
    {
        &self.lines
    }

    /// Starts the first line where the output has none.
    fn open(&mut self)
        ensures
            final(self)@ == old(self)@.opened(),
            final(self).fmt == old(self).fmt,
            final(self).indent == old(self).indent,
            final(self).lines@.len() > 0,
    {
        if self.lines.len() == 0 {
            let line = Line { id: 0, indent: self.indent, body: String::new(), comments: Vec::new() };
            self.lines.push(line);
            proof {
                assert(line@.comments =~= Seq::<Seq<char>>::empty());
                assert(self@.lines =~= seq![old(self)@.blank()]);
            }
        }
    }

    /// Adds `text` at the end of the last line's body.
    pub fn write(&mut self, text: &str)
        ensures
            final(self)@ == old(self)@.step(Op::Write(text@)),
            final(self).fmt == old(self).fmt,
            final(self).indent == old(self).indent,
    {
        self.open();
        let ghost o = self@;
        let mut line = self.lines.pop().unwrap();
        let ghost before = line@;
        line.body.append(text);
        proof {
            assert(line@.comments =~= before.comments);
        }
        self.lines.push(line);
        proof {
            assert(self@.lines =~= o.lines.drop_last().push(
                LineView { body: before.body + text@, ..before },
            ));
        }
    }

    /// Adds `text` below the comments of the last line.
    pub fn comment(&mut self, text: &str)
        ensures
            final(self)@ == old(self)@.step(Op::Comment(text@)),
            final(self).fmt == old(self).fmt,
            final(self).indent == old(self).indent,
    {
        self.open();
        let ghost o = self@;
        let mut line = self.lines.pop().unwrap();
        let ghost before = line@;
        line.comments.push(String::from_str(text));
        proof {
            assert(line@.comments =~= before.comments.push(text@));
        }
        self.lines.push(line);
        proof {
            assert(self@.lines =~= o.lines.drop_last().push(
                LineView { comments: before.comments.push(text@), ..before },
            ));
        }
    }

    /// Starts a line at the present indent.
    pub fn ln(&mut self)
        ensures
            final(self)@ == old(self)@.step(Op::Line),
            final(self).fmt == old(self).fmt,
            final(self).indent == old(self).indent,
    {
        let line = Line {
            id: self.lines.len(),
            indent: self.indent,
            body: String::new(),
            comments: Vec::new(),
        };
        proof {
            assert(line@.comments =~= Seq::<Seq<char>>::empty());
        }
        self.lines.push(line);
        proof {
            assert(self@.lines =~= old(self)@.lines.push(old(self)@.blank()));
        }
    }

    /// Moves the lines that follow one level to the right.
    pub fn inc_indent(&mut self)
        requires
            old(self).indent + INDENT <= usize::MAX,
        ensures
            final(self)@ == old(self)@.step(Op::Indent),
            final(self).fmt == old(self).fmt,
            final(self).indent == old(self).indent + INDENT,
    {
        self.indent = self.indent + INDENT;
        proof {
            assert(self@.lines =~= old(self)@.lines);
        }
    }

    /// Moves the lines that follow one level to the left, as far as there is
    /// a level to give up.
    pub fn dec_indent(&mut self)
        ensures
            final(self)@ == old(self)@.step(Op::Dedent),
            final(self).fmt == old(self).fmt,
            old(self).indent >= INDENT ==> final(self).indent == old(self).indent - INDENT,
    {
        self.indent = if self.indent >= INDENT {
            self.indent - INDENT
        } else {
            0
        };
        proof {
            assert(self@.lines =~= old(self)@.lines);
        }
    }
}

} // verus!
