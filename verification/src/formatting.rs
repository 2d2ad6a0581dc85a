//! Rendering choices, and how annotations of a schema node override them.

use vstd::prelude::*;
use crate::schema::{Meta, MetaValue};
use crate::text::{is_prefix, starts_with, str_eq};

verus! {

/// Which automatic hints the printer writes as comments.
#[derive(Clone, Copy, Debug, PartialEq, Eq, Structural)]
pub struct AutoComments {
    /// Says of an array of known size how many elements it must hold.
    pub array_size: bool,
    /// Says of an optional value that it is optional.
    pub optional: bool,
}

impl AutoComments {
    /// Every hint.
    pub fn all() -> (r: Self)
        ensures
            r.array_size,
            r.optional,
    {
        Self { array_size: true, optional: true }
    }

    /// No hint.
    pub fn none() -> (r: Self)
        ensures
            !r.array_size,
            !r.optional,
    {
        Self { array_size: false, optional: false }
    }
}

impl Default for AutoComments {
    fn default() -> (r: Self)
        ensures
            r.array_size,
            r.optional,
    {
        Self::all()
    }
}

/// How comments are written.
#[derive(Clone, Copy, Debug)]
pub struct CommentsStyle {
    /// What stands before each comment, such as `//`.
    pub separator: &'static str,
}

/// The rendering choices.
#[derive(Clone, Copy, Debug)]
pub struct Formatting {
    pub auto_comments: AutoComments,
    pub comments_style: CommentsStyle,
    /// What stands for the entries that an array or a map leaves out.
    pub ellipsis: &'static str,
    /// An array of known size is written on one line when it holds at most
    /// this many elements; with zero every array is written as a block.
    pub inline_threshold: usize,
    /// Whether an array of enums shows one entry for each variant.
    pub expand_variants: bool,
}

/// The key of an annotation belongs to the formatting namespace: it is
/// `fmt`, or it begins with `fmt.`.
pub open spec fn in_namespace(key: Seq<char>) -> bool {
    key == "fmt"@ || is_prefix("fmt."@, key)
}

/// Some annotation among `metas` belongs to the formatting namespace.
pub open spec fn wants_custom(metas: Seq<Meta>) -> bool {
    exists|i: int| 0 <= i < metas.len() && in_namespace(#[trigger] metas[i].key@)
}

/// Whether some annotation among `metas` belongs to the formatting
/// namespace.
pub fn requires_custom_formatting(metas: &Vec<Meta>) -> (r: bool)
    ensures
        r == wants_custom(metas@),
{
    let mut i: usize = 0;
    while i < metas.len()
        invariant
            i <= metas@.len(),
            forall|j: int| 0 <= j < i ==> !in_namespace(#[trigger] metas@[j].key@),
        decreases metas@.len() - i,
    {
        let key = metas[i].key;
        if str_eq(key, "fmt") || starts_with(key, "fmt.") {
            return true;
        }
        i = i + 1;
    }
    false
}

impl Formatting {
    /// The choices made where the caller makes none: both hints, `//` before
    /// a comment, `/* ... */` for what is left out, arrays as blocks with
    /// one entry.
    pub open spec fn spec_standard() -> Formatting {
        Formatting {
            auto_comments: AutoComments { array_size: true, optional: true },
            comments_style: CommentsStyle { separator: "//" },
            ellipsis: "/* ... */",
            inline_threshold: 0,
            expand_variants: false,
        }
    }

    /// The choices made where the caller makes none.
    #[verifier::when_used_as_spec(spec_standard)]
    pub fn standard() -> (r: Formatting)
        ensures
            r == Formatting::spec_standard(),
    {
        Formatting {
            auto_comments: AutoComments { array_size: true, optional: true },
            comments_style: CommentsStyle { separator: "//" },
            ellipsis: "/* ... */",
            inline_threshold: 0,
            expand_variants: false,
        }
    }

    /// These choices with one annotation applied. A key that names a choice
    /// overrides it when the value has the kind of that choice; the key `fmt`
    /// with the text `default` brings every choice back to the standard.
    /// Every other annotation leaves the choices as they are.
    pub open spec fn spec_apply(self, meta: Meta) -> Formatting {
        let key = meta.key@;
        match meta.value {
            MetaValue::Bool(b) => if key == "fmt.auto_comments.array_size"@ {
                Formatting {
                    auto_comments: AutoComments { array_size: b, optional: self.auto_comments.optional },
                    ..self
                }
            } else if key == "fmt.auto_comments.optional"@ {
                Formatting {
                    auto_comments: AutoComments { array_size: self.auto_comments.array_size, optional: b },
                    ..self
                }
            } else if key == "fmt.expand_variants"@ {
                Formatting { expand_variants: b, ..self }
            } else {
                self
            },
            MetaValue::Integer(n) => if key == "fmt.inline_threshold"@ {
                Formatting { inline_threshold: n, ..self }
            } else {
                self
            },
            MetaValue::Text(t) => if key == "fmt"@ && t@ == "default"@ {
                Formatting::spec_standard()
            } else if key == "fmt.comments_style.separator"@ {
                Formatting { comments_style: CommentsStyle { separator: t }, ..self }
            } else if key == "fmt.ellipsis"@ {
                Formatting { ellipsis: t, ..self }
            } else {
                self
            },
        }
    }

    /// These choices with one annotation applied.
    #[verifier::when_used_as_spec(spec_apply)]
    pub fn apply(self, meta: Meta) -> (r: Formatting)
        ensures
            r == self.spec_apply(meta),
    {
        let key = meta.key;
        match meta.value {
            MetaValue::Bool(b) => if str_eq(key, "fmt.auto_comments.array_size") {
                Formatting {
                    auto_comments: AutoComments { array_size: b, optional: self.auto_comments.optional },
                    ..self
                }
            } else if str_eq(key, "fmt.auto_comments.optional") {
                Formatting {
                    auto_comments: AutoComments { array_size: self.auto_comments.array_size, optional: b },
                    ..self
                }
            } else if str_eq(key, "fmt.expand_variants") {
                Formatting { expand_variants: b, ..self }
            } else {
                self
            },
            MetaValue::Integer(n) => if str_eq(key, "fmt.inline_threshold") {
                Formatting { inline_threshold: n, ..self }
            } else {
                self
            },
            MetaValue::Text(t) => if str_eq(key, "fmt") && str_eq(t, "default") {
                Formatting::standard()
            } else if str_eq(key, "fmt.comments_style.separator") {
                Formatting { comments_style: CommentsStyle { separator: t }, ..self }
            } else if str_eq(key, "fmt.ellipsis") {
                Formatting { ellipsis: t, ..self }
            } else {
                self
            },
        }
    }

    /// These choices with the annotations applied one after the other, the
    /// first one first.
    pub open spec fn spec_customize(self, metas: Seq<Meta>) -> Formatting
        decreases metas.len(),
    {
        if metas.len() == 0 {
            self
        } else {
            self.spec_customize(metas.drop_last()).spec_apply(metas.last())
        }
    }

    /// These choices with the annotations of a node applied in their order.
    /// The receiver stays as it is.
    pub fn customize(&self, metas: &Vec<Meta>) -> (r: Formatting)
        ensures
            r == self.spec_customize(metas@),
    {
        let mut cur: Formatting = *self;
        let mut i: usize = 0;
        while i < metas.len()
            invariant
                i <= metas@.len(),
                cur == self.spec_customize(metas@.subrange(0, i as int)),
            decreases metas@.len() - i,
        {
            proof {
                let next = metas@.subrange(0, i + 1);
                assert(next.drop_last() =~= metas@.subrange(0, i as int));
                assert(next.last() == metas@[i as int]);
            }
            cur = cur.apply(metas[i]);
            i = i + 1;
        }
        proof {
            assert(metas@.subrange(0, i as int) =~= metas@);
        }
        cur
    }
}

impl Default for Formatting {
    fn default() -> (r: Self)
        ensures
            r == Formatting::spec_standard(),
    {
        Formatting::standard()
    }
}

} // verus!
