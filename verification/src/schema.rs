//! The data model of a type declaration, as plain values.

use crate::EnumTag;
use vstd::prelude::*;

verus! {

/// A line and a column in a source file.
#[derive(Clone, Copy, Debug, PartialEq, Eq, Structural)]
pub struct Position {
    pub line: usize,
    pub column: usize,
}

/// The stretch of source text that a declaration occupies.
#[derive(Clone, Copy, Debug, PartialEq, Eq, Structural)]
pub struct Span {
    pub start: Position,
    pub end: Position,
}

/// The field shape of a variant: the tag type of [`Fields`].
#[derive(Clone, Copy, Debug, PartialEq, Eq, PartialOrd, Ord, Hash, Structural)]
pub enum FieldShape {
    Unit,
    Positional,
    Named,
}

/// A named field: its name and the text of its type.
#[derive(Clone, Debug, PartialEq, Eq)]
pub struct NamedField {
    pub name: String,
    pub ty: String,
}

/// A named field, with its texts as sequences of characters.
pub struct NamedFieldView {
    pub name: Seq<char>,
    pub ty: Seq<char>,
}

impl DeepView for NamedField {
    type V = NamedFieldView;

    open spec fn deep_view(&self) -> NamedFieldView {
        NamedFieldView { name: self.name@, ty: self.ty@ }
    }
}

impl View for NamedField {
    type V = NamedFieldView;

    open spec fn view(&self) -> NamedFieldView {
        self.deep_view()
    }
}

/// The payload of a variant: nothing, positional fields (the text of each
/// type), or named fields.
#[derive(Clone, Debug, PartialEq, Eq)]
pub enum Fields {
    Unit,
    Positional(Vec<String>),
    Named(Vec<NamedField>),
}

/// A payload, with its texts as sequences of characters.
pub enum FieldsView {
    Unit,
    Positional(Seq<Seq<char>>),
    Named(Seq<NamedFieldView>),
}

impl FieldsView {
    /// The shape of the payload, whatever it holds.
    pub open spec fn shape(self) -> FieldShape {
        match self {
            FieldsView::Unit => FieldShape::Unit,
            FieldsView::Positional(_) => FieldShape::Positional,
            FieldsView::Named(_) => FieldShape::Named,
        }
    }
}

impl DeepView for Fields {
    type V = FieldsView;

    open spec fn deep_view(&self) -> FieldsView {
        match self {
            Fields::Unit => FieldsView::Unit,
            Fields::Positional(types) => FieldsView::Positional(types.deep_view()),
            Fields::Named(fields) => FieldsView::Named(fields.deep_view()),
        }
    }
}

impl View for Fields {
    type V = FieldsView;

    open spec fn view(&self) -> FieldsView {
        self.deep_view()
    }
}

impl EnumTag for Fields {
    type Tag = FieldShape;

    /// Returns the shape of the payload.
    fn tag(&self) -> (shape: FieldShape)
        ensures
            shape == self@.shape(),
    {
        match self {
            Fields::Unit => FieldShape::Unit,
            Fields::Positional(_) => FieldShape::Positional,
            Fields::Named(_) => FieldShape::Named,
        }
    }
}

/// One case of a sum type.
#[derive(Clone, Debug, PartialEq, Eq)]
pub struct VariantDecl {
    /// The identifier; within one sum type no two variants share it.
    pub ident: String,
    /// The payload.
    pub fields: Fields,
    /// The text of the explicit discriminant expression, if one is written.
    pub discriminant: Option<String>,
}

/// A variant, with its texts as sequences of characters.
pub struct VariantDeclView {
    pub ident: Seq<char>,
    pub fields: FieldsView,
    pub discriminant: Option<Seq<char>>,
}

impl DeepView for VariantDecl {
    type V = VariantDeclView;

    open spec fn deep_view(&self) -> VariantDeclView {
        VariantDeclView {
            ident: self.ident@,
            fields: self.fields@,
            discriminant: self.discriminant.deep_view(),
        }
    }
}

impl View for VariantDecl {
    type V = VariantDeclView;

    open spec fn view(&self) -> VariantDeclView {
        self.deep_view()
    }
}

/// No two of `variants` share an identifier.
pub open spec fn distinct_idents(variants: Seq<VariantDeclView>) -> bool {
    forall|i: int, j: int|
        0 <= i < j < variants.len() ==> #[trigger] variants[i].ident
            != #[trigger] variants[j].ident
}

/// What a generic parameter stands for.
#[derive(Clone, Copy, Debug, PartialEq, Eq, PartialOrd, Ord, Hash, Structural)]
pub enum GenericParamKind {
    Lifetime,
    Type,
    Const,
}

/// One generic parameter of a declaration.
#[derive(Clone, Debug, PartialEq, Eq)]
pub struct GenericParam {
    /// The text of each attribute written on the parameter, in order.
    pub attrs: Vec<String>,
    pub kind: GenericParamKind,
    /// The name as it is written where the parameter is used: `'a`, `T`, `N`.
    pub name: String,
    /// The text after the colon: the bounds of a lifetime or type parameter,
    /// the type of a const parameter.
    pub bounds: Option<String>,
    /// The text of the default, if one is written.
    pub default: Option<String>,
}

/// A generic parameter, with its texts as sequences of characters.
pub struct GenericParamView {
    pub attrs: Seq<Seq<char>>,
    pub kind: GenericParamKind,
    pub name: Seq<char>,
    pub bounds: Option<Seq<char>>,
    pub default: Option<Seq<char>>,
}

impl DeepView for GenericParam {
    type V = GenericParamView;

    open spec fn deep_view(&self) -> GenericParamView {
        GenericParamView {
            attrs: self.attrs.deep_view(),
            kind: self.kind,
            name: self.name@,
            bounds: self.bounds.deep_view(),
            default: self.default.deep_view(),
        }
    }
}

impl View for GenericParam {
    type V = GenericParamView;

    open spec fn view(&self) -> GenericParamView {
        self.deep_view()
    }
}

/// The generic parameters of a declaration and the constraints of its
/// `where` clause.
#[derive(Clone, Debug, PartialEq, Eq)]
pub struct Generics {
    pub params: Vec<GenericParam>,
    /// The text of each predicate of the `where` clause, in order.
    pub predicates: Vec<String>,
}

/// Generic parameters and predicates, with their texts as sequences of
/// characters.
pub struct GenericsView {
    pub params: Seq<GenericParamView>,
    pub predicates: Seq<Seq<char>>,
}

impl DeepView for Generics {
    type V = GenericsView;

    open spec fn deep_view(&self) -> GenericsView {
        GenericsView { params: self.params.deep_view(), predicates: self.predicates.deep_view() }
    }
}

impl View for Generics {
    type V = GenericsView;

    open spec fn view(&self) -> GenericsView {
        self.deep_view()
    }
}

/// The kind of a type declaration: the tag type of [`DeclBody`].
#[derive(Clone, Copy, Debug, PartialEq, Eq, PartialOrd, Ord, Hash, Structural)]
pub enum DeclKind {
    Enum,
    Struct,
    Union,
}

/// What a type declaration declares.
#[derive(Clone, Debug, PartialEq, Eq)]
pub enum DeclBody {
    /// A sum type, with its variants in declared order.
    Enum(Vec<VariantDecl>),
    /// A product type, with its one field layout.
    Struct(Fields),
    /// A union, with its overlapping fields.
    Union(Vec<NamedField>),
}

/// What a declaration declares, with its texts as sequences of characters.
pub enum DeclBodyView {
    Enum(Seq<VariantDeclView>),
    Struct(FieldsView),
    Union(Seq<NamedFieldView>),
}

impl DeclBodyView {
    /// The kind of the declaration, whatever it holds.
    pub open spec fn kind(self) -> DeclKind {
        match self {
            DeclBodyView::Enum(_) => DeclKind::Enum,
            DeclBodyView::Struct(_) => DeclKind::Struct,
            DeclBodyView::Union(_) => DeclKind::Union,
        }
    }
}

impl DeepView for DeclBody {
    type V = DeclBodyView;

    open spec fn deep_view(&self) -> DeclBodyView {
        match self {
            DeclBody::Enum(variants) => DeclBodyView::Enum(variants.deep_view()),
            DeclBody::Struct(fields) => DeclBodyView::Struct(fields@),
            DeclBody::Union(fields) => DeclBodyView::Union(fields.deep_view()),
        }
    }
}

impl View for DeclBody {
    type V = DeclBodyView;

    open spec fn view(&self) -> DeclBodyView {
        self.deep_view()
    }
}

impl EnumTag for DeclBody {
    type Tag = DeclKind;

    /// Returns the kind of the declaration.
    fn tag(&self) -> (kind: DeclKind)
        ensures
            kind == self@.kind(),
    {
        match self {
            DeclBody::Enum(_) => DeclKind::Enum,
            DeclBody::Struct(_) => DeclKind::Struct,
            DeclBody::Union(_) => DeclKind::Union,
        }
    }
}

/// A type declaration as it is written: the input of the derivation.
#[derive(Clone, Debug, PartialEq, Eq)]
pub struct TypeDecl {
    pub ident: String,
    pub generics: Generics,
    pub body: DeclBody,
    /// Where the declaration stands in its source file.
    pub span: Span,
}

/// A type declaration, with its texts as sequences of characters.
pub struct TypeDeclView {
    pub ident: Seq<char>,
    pub generics: GenericsView,
    pub body: DeclBodyView,
    pub span: Span,
}

impl TypeDeclView {
    /// Where the declaration has variants, no two of them share an
    /// identifier.
    pub open spec fn well_formed(self) -> bool {
        self.body matches DeclBodyView::Enum(variants) ==> distinct_idents(variants)
    }
}

impl DeepView for TypeDecl {
    type V = TypeDeclView;

    open spec fn deep_view(&self) -> TypeDeclView {
        TypeDeclView {
            ident: self.ident@,
            generics: self.generics@,
            body: self.body@,
            span: self.span,
        }
    }
}

impl View for TypeDecl {
    type V = TypeDeclView;

    open spec fn view(&self) -> TypeDeclView {
        self.deep_view()
    }
}

/// A sum type: a type declaration that is known to declare variants.
#[derive(Clone, Debug, PartialEq, Eq)]
pub struct SourceTypeDecl {
    pub ident: String,
    pub generics: Generics,
    /// The variants, in declared order.
    pub variants: Vec<VariantDecl>,
}

/// A sum type, with its texts as sequences of characters.
pub struct SourceTypeDeclView {
    pub ident: Seq<char>,
    pub generics: GenericsView,
    pub variants: Seq<VariantDeclView>,
}

impl SourceTypeDeclView {
    /// No two variants share an identifier.
    pub open spec fn well_formed(self) -> bool {
        distinct_idents(self.variants)
    }
}

impl DeepView for SourceTypeDecl {
    type V = SourceTypeDeclView;

    open spec fn deep_view(&self) -> SourceTypeDeclView {
        SourceTypeDeclView {
            ident: self.ident@,
            generics: self.generics@,
            variants: self.variants.deep_view(),
        }
    }
}

impl View for SourceTypeDecl {
    type V = SourceTypeDeclView;

    open spec fn view(&self) -> SourceTypeDeclView {
        self.deep_view()
    }
}

} // verus!
