//! What a rendering context knows, apart from where it writes.

use vstd::prelude::*;
use crate::formatting::{requires_custom_formatting, wants_custom, Formatting};
use crate::schema::{Example, Type, TypeKind, Value, Visibility};

verus! {

/// The deepest level a context can stand at. A walk that would have to go
/// below it has met a schema nested beyond every sensible measure.
pub const MAX_DEPTH: u8 = 255;

/// The state that the printer carries from a node to the nodes below it.
#[derive(Clone, Copy)]
pub struct Frame<'ty> {
    /// The node to render.
    pub ty: &'ty Type,
    /// What is known of the sample value at this node.
    pub val: Option<&'ty Value>,
    pub vis: Visibility,
    pub fmt: Formatting,
    /// The node stands as the key of a map entry.
    pub is_key: bool,
    /// The node that the walk came from.
    pub parent: Option<&'ty Type>,
    /// An example handed down from above; it goes before the node's own.
    pub example: Option<Example>,
    /// A struct at this node shows its fields without braces of its own.
    pub flat: bool,
    /// How many levels the walk has gone down.
    pub depth: u8,
}

impl<'ty> Frame<'ty> {
    /// The frame at the top of a walk.
    #[verifier::allow_in_spec]
    pub fn root(ty: &'ty Type, val: Option<&'ty Value>, vis: Visibility, fmt: Formatting) -> Frame<'ty>
        returns
            (Frame {
                ty,
                val,
                vis,
                fmt,
                is_key: false,
                parent: None,
                example: None,
                flat: false,
                depth: 0,
            }),
    {
        Frame {
            ty,
            val,
            vis,
            fmt,
            is_key: false,
            parent: None,
            example: None,
            flat: false,
            depth: 0,
        }
    }

    /// One level further down, at the same node. The frame no longer stands
    /// for a key.
    pub open spec fn spec_nested(self) -> Frame<'ty> {
        Frame { is_key: false, depth: (self.depth + 1) as u8, ..self }
    }

    /// One level further down, at the same node.
    #[verifier::when_used_as_spec(spec_nested)]
    pub fn nested(self) -> (r: Frame<'ty>)
        requires
            self.depth < MAX_DEPTH,
        ensures
            r == self.spec_nested(),
            r.depth == self.depth + 1,
    {
        Frame { is_key: false, depth: self.depth + 1, ..self }
    }

    /// At the node `ty`, come from the present node. The example handed down
    /// is dropped. A flat rendering goes on only through a transparent
    /// struct.
    #[verifier::allow_in_spec]
    pub fn with_ty(self, ty: &'ty Type) -> Frame<'ty>
        returns
            (Frame {
                parent: Some(self.ty),
                ty,
                flat: self.flat && self.ty.is_transparent(),
                example: None,
                ..self
            }),
    {
        let keep_flat = match self.ty.kind {
            TypeKind::Struct { transparent, .. } => transparent,
            _ => false,
        };
        Frame { parent: Some(self.ty), ty, flat: self.flat && keep_flat, example: None, ..self }
    }

    #[verifier::allow_in_spec]
    pub fn with_val(self, val: Option<&'ty Value>) -> Frame<'ty>
        returns
            (Frame { val, ..self }),
    {
        Frame { val, ..self }
    }

    /// With other rendering choices. The frame no longer stands for a key.
    #[verifier::allow_in_spec]
    pub fn with_fmt(self, fmt: Formatting) -> Frame<'ty>
        returns
            (Frame { fmt, is_key: false, ..self }),
    {
        Frame { fmt, is_key: false, ..self }
    }

    #[verifier::allow_in_spec]
    pub fn with_example(self, example: Option<Example>) -> Frame<'ty>
        returns
            (Frame { example, ..self }),
    {
        Frame { example, ..self }
    }

    #[verifier::allow_in_spec]
    pub fn with_flat(self) -> Frame<'ty>
        returns
            (Frame { flat: true, ..self }),
    {
        Frame { flat: true, ..self }
    }

    #[verifier::allow_in_spec]
    pub fn set_is_key(self) -> Frame<'ty>
        returns
            (Frame { is_key: true, ..self }),
    {
        Frame { is_key: true, ..self }
    }

    /// The frame for a node directly below the present one.
    pub open spec fn spec_child(self, ty: &'ty Type) -> Frame<'ty> {
        self.spec_nested().with_ty(ty)
    }

    /// The frame for a node directly below the present one.
    #[verifier::when_used_as_spec(spec_child)]
    pub fn child(self, ty: &'ty Type) -> (r: Frame<'ty>)
        requires
            self.depth < MAX_DEPTH,
        ensures
            r == self.spec_child(ty),
            r.depth == self.depth + 1,
    {
        self.nested().with_ty(ty)
    }

    /// The example of the node: the one handed down, or else the node's own.
    #[verifier::allow_in_spec]
    pub fn example(self) -> Option<Example>
        returns
            (match self.example {
                Some(e) => Some(e),
                None => self.ty.example,
            }),
    {
        match self.example {
            Some(e) => Some(e),
            None => self.ty.example,
        }
    }

    /// The first value that the node's example offers.
    #[verifier::allow_in_spec]
    pub fn first_example(self) -> Option<&'static str>
        returns
            (match self.example() {
                Some(e) => e.first(),
                None => None,
            }),
    {
        match self.example() {
            Some(e) => e.first(),
            None => None,
        }
    }

    /// The text of the node's example, where that example is a literal.
    #[verifier::allow_in_spec]
    pub fn literal_example(self) -> Option<&'static str>
        returns
            (match self.example() {
                Some(e) => e.literal(),
                None => None,
            }),
    {
        match self.example() {
            Some(e) => e.literal(),
            None => None,
        }
    }

    /// Whether the visibility filter lets the node through.
    #[verifier::allow_in_spec]
    pub fn visible(self) -> bool
        returns
            self.vis.allows(self.ty.serializable, self.ty.deserializable),
    {
        self.vis.allows(self.ty.serializable, self.ty.deserializable)
    }

    /// The frame with the node's own formatting annotations applied to the
    /// rendering choices, where the node has any.
    pub open spec fn spec_customized(self) -> Frame<'ty> {
        if wants_custom(self.ty.metas@) {
            self.with_fmt(self.fmt.spec_customize(self.ty.metas@))
        } else {
            self
        }
    }

    /// The frame with the node's own formatting annotations applied.
    #[verifier::when_used_as_spec(spec_customized)]
    pub fn customized(self) -> (r: Frame<'ty>)
        ensures
            r == self.spec_customized(),
    {
        if requires_custom_formatting(&self.ty.metas) {
            self.with_fmt(self.fmt.customize(&self.ty.metas))
        } else {
            self
        }
    }

    /// The node is an optional value that is left out: it has no literal
    /// example, the hint for optional values is switched off, and the sample
    /// says nothing of it.
    #[verifier::allow_in_spec]
    pub fn omitted(self) -> bool
        returns
            (self.ty.kind is Optional && self.literal_example() is None
                && !self.fmt.auto_comments.optional && self.val is None),
    {
        let optional = match self.ty.kind {
            TypeKind::Optional { .. } => true,
            _ => false,
        };
        optional && self.literal_example().is_none() && !self.fmt.auto_comments.optional
            && self.val.is_none()
    }

    /// Whether the node leaves any trace in the output: the filter lets it
    /// through, and it is no optional value that is left out.
    pub open spec fn spec_shown(self) -> bool {
        self.visible() && !self.spec_customized().omitted()
    }

    /// Whether the node leaves any trace in the output.
    #[verifier::when_used_as_spec(spec_shown)]
    pub fn shown(self) -> (r: bool)
        ensures
            r == self.spec_shown(),
    {
        self.visible() && !self.customized().omitted()
    }
}

} // verus!
