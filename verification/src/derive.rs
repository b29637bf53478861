//! The derivation as a whole: extract, synthesize, bind, write.

use crate::bind::{bind, binding_of, ClassifyBinding, ClassifyBindingView};
use crate::emit::expansion_text;
use crate::error::{Rejection, RejectionView};
use crate::extract::{extract, extracted};
use crate::schema::{SourceTypeDeclView, Span, TypeDecl, TypeDeclView};
use crate::synth::{synthesize, tag_decl, DerivedTagDecl, DerivedTagDeclView};
use vstd::prelude::*;
use vstd::string::*;

verus! {

/// What the derivation declares for one sum type: the tag type, and the
/// implementation that classifies the sum type by it.
#[derive(Clone, Debug, PartialEq, Eq)]
pub struct Expansion {
    pub tag: DerivedTagDecl,
    pub binding: ClassifyBinding,
}

/// Both declarations, with their texts as sequences of characters.
pub struct ExpansionView {
    pub tag: DerivedTagDeclView,
    pub binding: ClassifyBindingView,
}

impl DeepView for Expansion {
    type V = ExpansionView;

    open spec fn deep_view(&self) -> ExpansionView {
        ExpansionView { tag: self.tag@, binding: self.binding@ }
    }
}

impl View for Expansion {
    type V = ExpansionView;

    open spec fn view(&self) -> ExpansionView {
        self.deep_view()
    }
}

/// What is reported for a refused declaration: where it stands, and the
/// explanation.
#[derive(Clone, Debug, PartialEq, Eq)]
pub struct Diagnostic {
    pub span: Span,
    pub message: String,
}

/// A diagnostic, with its message as a sequence of characters.
pub struct DiagnosticView {
    pub span: Span,
    pub message: Seq<char>,
}

impl DeepView for Diagnostic {
    type V = DiagnosticView;

    open spec fn deep_view(&self) -> DiagnosticView {
        DiagnosticView { span: self.span, message: self.message@ }
    }
}

impl View for Diagnostic {
    type V = DiagnosticView;

    open spec fn view(&self) -> DiagnosticView {
        self.deep_view()
    }
}

/// How a derivation ends.
#[derive(Clone, Debug, PartialEq, Eq)]
pub enum Output {
    /// With the source text of the declarations.
    Done(String),
    /// With a diagnostic, and no declaration.
    Rejected(Diagnostic),
}

/// The end of a derivation, with its texts as sequences of characters.
pub enum OutputView {
    Done(Seq<char>),
    Rejected(DiagnosticView),
}

impl DeepView for Output {
    type V = OutputView;

    open spec fn deep_view(&self) -> OutputView {
        match self {
            Output::Done(text) => OutputView::Done(text@),
            Output::Rejected(diagnostic) => OutputView::Rejected(diagnostic@),
        }
    }
}

impl View for Output {
    type V = OutputView;

    open spec fn view(&self) -> OutputView {
        self.deep_view()
    }
}

/// The declarations for `source`: its tag type, and the binding of `source`
/// to that tag type.
pub open spec fn expansion_of(source: SourceTypeDeclView) -> ExpansionView {
    ExpansionView { tag: tag_decl(source), binding: binding_of(source, tag_decl(source)) }
}

/// What the derivation gives for `decl`: the declarations where `decl` is a
/// sum type, the refusal where it is not.
pub open spec fn expanded(decl: TypeDeclView) -> Result<ExpansionView, RejectionView> {
    match extracted(decl) {
        Ok(source) => Ok(expansion_of(source)),
        Err(rejection) => Err(rejection),
    }
}

/// The diagnostic that reports `rejection`.
pub open spec fn diagnostic_of(rejection: RejectionView) -> DiagnosticView {
    DiagnosticView { span: rejection.span, message: rejection.kind.explanation() }
}

/// How the derivation for `decl` ends.
pub open spec fn output_of(decl: TypeDeclView) -> OutputView {
    match expanded(decl) {
        Ok(expansion) => OutputView::Done(expansion_text(expansion.tag, expansion.binding)),
        Err(rejection) => OutputView::Rejected(diagnostic_of(rejection)),
    }
}

impl Expansion {
    /// Writes both declarations, inside a scope without a name.
    pub fn to_source(&self) -> (out: String)
        ensures
            out@ == expansion_text(self@.tag, self@.binding),
    {
        let mut out = String::from_str("const _: () = { ");
        out.append(self.tag.to_source().as_str());
        out.append(" ");
        out.append(self.binding.to_source().as_str());
        out.append(" };");
        out
    }
}

impl Rejection {
    /// Returns the diagnostic that reports the refusal: the span of the
    /// refused declaration and the explanation.
    pub fn diagnostic(&self) -> (diagnostic: Diagnostic)
        ensures
            diagnostic@ == diagnostic_of(self@),
    {
        Diagnostic { span: self.span, message: self.message() }
    }
}

/// Derives the tag type of `input` and the implementation that classifies
/// `input` by it.
///
/// The stages run once each and in this order: extracting, synthesizing,
/// binding. Only extracting can fail, and its failure ends the derivation.
///
/// A sum type gives both declarations: the tag type with one case per
/// variant, and the binding with one arm per variant. A product type and a
/// union give a refusal of their kind and no declaration.
pub fn enum_tag_impl(input: TypeDecl) -> (outcome: Result<Expansion, Rejection>)
    ensures
        match outcome {
            Ok(expansion) => expanded(input@) == Ok::<ExpansionView, RejectionView>(expansion@),
            Err(rejection) => expanded(input@) == Err::<ExpansionView, RejectionView>(rejection@),
        },
{
    match extract(input) {
        Ok(source) => {
            let tag = synthesize(&source);
            let binding = bind(&source, &tag);
            Ok(Expansion { tag, binding })
        },
        Err(rejection) => Err(rejection),
    }
}

/// Runs the derivation for `input` to its end: the source text of the
/// declarations, or the diagnostic for a declaration that is refused.
pub fn enum_tag(input: TypeDecl) -> (output: Output)
    ensures
        output@ == output_of(input@),
{
    match enum_tag_impl(input) {
        Ok(expansion) => Output::Done(expansion.to_source()),
        Err(rejection) => Output::Rejected(rejection.diagnostic()),
    }
}

} // verus!
