//! Why a declaration is refused.

use crate::schema::{DeclKind, Span};
use vstd::prelude::*;
use vstd::string::*;

verus! {

/// The kinds of declaration that have no tag type.
#[derive(Clone, Copy, Debug, PartialEq, Eq, Hash, Structural)]
pub enum UnsupportedKind {
    /// A product type: one fixed field layout, no variants.
    Product,
    /// A union: fields that share their storage.
    Union,
}

impl UnsupportedKind {
    /// The kind of declaration that was found where a sum type was expected.
    pub open spec fn found(self) -> DeclKind {
        match self {
            UnsupportedKind::Product => DeclKind::Struct,
            UnsupportedKind::Union => DeclKind::Union,
        }
    }

    /// The explanation given to the user: the kind that was expected and the
    /// kind that was found.
    pub open spec fn explanation(self) -> Seq<char> {
        match self {
            UnsupportedKind::Product => "derive(EnumTag) only works on `enum` types but found struct"@,
            UnsupportedKind::Union => "derive(EnumTag) only works on `enum` types but found union"@,
        }
    }

    /// Returns the kind of declaration that was found.
    pub fn found_kind(&self) -> (kind: DeclKind)
        ensures
            kind == self.found(),
    {
        match self {
            UnsupportedKind::Product => DeclKind::Struct,
            UnsupportedKind::Union => DeclKind::Union,
        }
    }

    /// Returns the explanation given to the user.
    pub fn message(&self) -> (text: String)
        ensures
            text@ == self.explanation(),
    {
        match self {
            UnsupportedKind::Product => String::from_str(
                "derive(EnumTag) only works on `enum` types but found struct",
            ),
            UnsupportedKind::Union => String::from_str(
                "derive(EnumTag) only works on `enum` types but found union",
            ),
        }
    }
}

/// A refused declaration: which one, where it stands and why it is refused.
#[derive(Clone, Debug, PartialEq, Eq)]
pub struct Rejection {
    pub kind: UnsupportedKind,
    /// The identifier of the refused declaration.
    pub ident: String,
    /// Where the refused declaration stands.
    pub span: Span,
}

/// A refusal, with its texts as sequences of characters.
pub struct RejectionView {
    pub kind: UnsupportedKind,
    pub ident: Seq<char>,
    pub span: Span,
}

impl DeepView for Rejection {
    type V = RejectionView;

    open spec fn deep_view(&self) -> RejectionView {
        RejectionView { kind: self.kind, ident: self.ident@, span: self.span }
    }
}

impl View for Rejection {
    type V = RejectionView;

    open spec fn view(&self) -> RejectionView {
        self.deep_view()
    }
}

impl Rejection {
    /// Returns the explanation given to the user.
    pub fn message(&self) -> (text: String)
        ensures
            text@ == self.kind.explanation(),
    {
        self.kind.message()
    }
}

} // verus!
