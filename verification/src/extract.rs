//! The schema extractor: from a type declaration to a sum type.

use crate::error::{Rejection, RejectionView, UnsupportedKind};
use crate::schema::{DeclBody, DeclBodyView, SourceTypeDecl, SourceTypeDeclView, TypeDecl, TypeDeclView};
use vstd::prelude::*;

verus! {

/// The sum type that `decl` declares, or why it declares none.
pub open spec fn extracted(decl: TypeDeclView) -> Result<SourceTypeDeclView, RejectionView> {
    match decl.body {
        DeclBodyView::Enum(variants) => Ok(
            SourceTypeDeclView { ident: decl.ident, generics: decl.generics, variants },
        ),
        DeclBodyView::Struct(_) => Err(
            RejectionView { kind: UnsupportedKind::Product, ident: decl.ident, span: decl.span },
        ),
        DeclBodyView::Union(_) => Err(
            RejectionView { kind: UnsupportedKind::Union, ident: decl.ident, span: decl.span },
        ),
    }
}

/// Reads `decl` as a sum type.
///
/// A declaration of variants is accepted as it stands: identifier, generic
/// parameters and the variants in declared order, so the sum type is well
/// formed where the declaration is. A product type and a union are refused,
/// each with its own kind, and the refusal names the declaration and carries
/// its span.
pub fn extract(decl: TypeDecl) -> (outcome: Result<SourceTypeDecl, Rejection>)
    ensures
        match outcome {
            Ok(source) => extracted(decl@) == Ok::<SourceTypeDeclView, RejectionView>(source@),
            Err(rejection) => extracted(decl@) == Err::<SourceTypeDeclView, RejectionView>(
                rejection@,
            ),
        },
        outcome matches Ok(source) ==> (source@.well_formed() <==> decl@.well_formed()),
{
    let TypeDecl { ident, generics, body, span } = decl;
    match body {
        DeclBody::Enum(variants) => Ok(SourceTypeDecl { ident, generics, variants }),
        DeclBody::Struct(_) => Err(Rejection { kind: UnsupportedKind::Product, ident, span }),
        DeclBody::Union(_) => Err(Rejection { kind: UnsupportedKind::Union, ident, span }),
    }
}

} // verus!
