//! The one-column layout: every line below the one before it, its comments
//! above its body.

use vstd::prelude::*;
use vstd::string::*;
use crate::output::{Line, LineView, Output};

verus! {

/// `n` spaces.
pub open spec fn spaces(n: nat) -> Seq<char> {
    Seq::new(n, |i: int| ' ')
}

/// One comment as a line of text: the indent, the separator, a space, the
/// comment and a line break.
pub open spec fn comment_text(sep: Seq<char>, indent: nat, comment: Seq<char>) -> Seq<char> {
    spaces(indent) + sep + seq![' '] + comment + seq!['\n']
}

/// The comments of a line as text, the first one first.
pub open spec fn comments_text(sep: Seq<char>, indent: nat, comments: Seq<Seq<char>>) -> Seq<char>
    decreases comments.len(),
{
    if comments.len() == 0 {
        Seq::empty()
    } else {
        comments_text(sep, indent, comments.drop_last()) + comment_text(
            sep,
            indent,
            comments.last(),
        )
    }
}

/// One line as text: a line break unless the line is the very first, the
/// comments, the indent and the body.
pub open spec fn line_text(sep: Seq<char>, line: LineView) -> Seq<char> {
    (if line.id > 0 {
        seq!['\n']
    } else {
        Seq::empty()
    }) + comments_text(sep, line.indent, line.comments) + spaces(line.indent) + line.body
}

/// The lines as text, in their order.
pub open spec fn page(sep: Seq<char>, lines: Seq<LineView>) -> Seq<char>
    decreases lines.len(),
{
    if lines.len() == 0 {
        Seq::empty()
    } else {
        page(sep, lines.drop_last()) + line_text(sep, lines.last())
    }
}

/// Adds `n` spaces to `result`.
fn pad(result: &mut String, n: usize)
    ensures
        final(result)@ == old(result)@ + spaces(n as nat),
{
    let mut i: usize = 0;
    proof {
        assert(result@ =~= old(result)@ + spaces(0));
    }
    while i < n
        invariant
            i <= n,
            result@ == old(result)@ + spaces(i as nat),
        decreases n - i,
    {
        result.append(" ");
        proof {
            reveal_strlit(" ");
            assert(result@ =~= old(result)@ + spaces((i + 1) as nat));
        }
        i = i + 1;
    }
}

/// Adds the comments of `line` to `result`.
fn render_comments(result: &mut String, sep: &str, line: &Line)
    ensures
        final(result)@ == old(result)@ + comments_text(sep@, line@.indent, line@.comments),
{
    let mut i: usize = 0;
    proof {
        assert(line@.comments.subrange(0, 0) =~= Seq::<Seq<char>>::empty());
        assert(result@ =~= old(result)@ + comments_text(
            sep@,
            line@.indent,
            line@.comments.subrange(0, 0),
        ));
    }
    while i < line.comments.len()
        invariant
            i <= line.comments@.len(),
            result@ == old(result)@ + comments_text(
                sep@,
                line@.indent,
                line@.comments.subrange(0, i as int),
            ),
        decreases line.comments@.len() - i,
    {
        let ghost before = result@;
        pad(result, line.indent);
        result.append(sep);
        result.append(" ");
        result.append(line.comments[i].as_str());
        result.append("\n");
        proof {
            reveal_strlit(" ");
            reveal_strlit("\n");
            let done = line@.comments.subrange(0, i as int);
            let next = line@.comments.subrange(0, i + 1);
            assert(next.drop_last() =~= done);
            assert(next.last() == line.comments@[i as int]@);
            assert(result@ =~= before + comment_text(sep@, line@.indent, next.last()));
            assert(result@ =~= old(result)@ + comments_text(sep@, line@.indent, next));
        }
        i = i + 1;
    }
    proof {
        assert(line@.comments.subrange(0, i as int) =~= line@.comments);
    }
}

/// The text of an output: its lines in the order in which they were started.
/// Each line but the very first begins with a line break; each comment of a
/// line stands on a line of its own above the body, behind the line's indent,
/// the comment separator and a space.
pub fn render(out: Output) -> (result: String)
    ensures
        result@ == page(out.fmt.comments_style.separator@, out@.lines),
{
    let mut result = String::new();
    let sep = out.fmt.comments_style.separator;
    let lines = out.lines();
    let mut i: usize = 0;
    proof {
        assert(out@.lines.subrange(0, 0) =~= Seq::<LineView>::empty());
    }
    while i < lines.len()
        invariant
            i <= lines@.len(),
            lines == &out.lines,
            sep == out.fmt.comments_style.separator,
            result@ == page(sep@, out@.lines.subrange(0, i as int)),
        decreases lines@.len() - i,
    {
        let line = &lines[i];
        let ghost before = result@;
        if line.id > 0 {
            result.append("\n");
        }
        render_comments(&mut result, sep, line);
        pad(&mut result, line.indent);
        result.append(line.body.as_str());
        proof {
            reveal_strlit("\n");
            let done = out@.lines.subrange(0, i as int);
            let next = out@.lines.subrange(0, i + 1);
            assert(next.drop_last() =~= done);
            assert(next.last() == line@);
            assert(result@ =~= before + line_text(sep@, line@));
        }
        i = i + 1;
    }
    proof {
        assert(out@.lines.subrange(0, i as int) =~= out@.lines);
    }
    result
}

} // verus!
