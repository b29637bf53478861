//! The tag synthesizer: from a sum type to its tag type.

use crate::schema::{SourceTypeDecl, SourceTypeDeclView, VariantDecl, VariantDeclView};
use crate::text::copy_optional;
use vstd::prelude::*;
use vstd::string::*;

verus! {

/// What a tag type can do, whatever the payloads of its sum type can do.
#[derive(Clone, Copy, Debug, PartialEq, Eq, PartialOrd, Ord, Hash, Structural)]
pub enum Capability {
    /// A textual form for debugging.
    DebugPrint,
    /// Duplication, by clone and by copy.
    Duplication,
    /// Equality by structure.
    StructuralEquality,
    /// Equality as a total relation.
    TotalEquality,
    /// A total order.
    TotalOrdering,
    /// Hashing.
    Hashing,
}

impl Capability {
    /// Every capability, in the order in which a tag type requests them.
    pub open spec fn all() -> Seq<Capability> {
        seq![
            Capability::DebugPrint,
            Capability::Duplication,
            Capability::StructuralEquality,
            Capability::TotalEquality,
            Capability::TotalOrdering,
            Capability::Hashing,
        ]
    }

    /// The traits whose derivation gives the capability, as paths that no
    /// import at the place of use can change.
    pub open spec fn derive_paths(self) -> Seq<char> {
        match self {
            Capability::DebugPrint => "::core::fmt::Debug"@,
            Capability::Duplication => "::core::clone::Clone, ::core::marker::Copy"@,
            Capability::StructuralEquality => "::core::cmp::PartialEq"@,
            Capability::TotalEquality => "::core::cmp::Eq"@,
            Capability::TotalOrdering => "::core::cmp::PartialOrd, ::core::cmp::Ord"@,
            Capability::Hashing => "::core::hash::Hash"@,
        }
    }

    /// Returns every capability, in the order in which a tag type requests
    /// them.
    pub fn every() -> (capabilities: Vec<Capability>)
        ensures
            capabilities@ == Capability::all(),
    {
        let mut capabilities: Vec<Capability> = Vec::new();
        capabilities.push(Capability::DebugPrint);
        capabilities.push(Capability::Duplication);
        capabilities.push(Capability::StructuralEquality);
        capabilities.push(Capability::TotalEquality);
        capabilities.push(Capability::TotalOrdering);
        capabilities.push(Capability::Hashing);
        capabilities
    }

    /// Returns the traits whose derivation gives the capability.
    pub fn derives(&self) -> (paths: &'static str)
        ensures
            paths@ == self.derive_paths(),
    {
        match self {
            Capability::DebugPrint => "::core::fmt::Debug",
            Capability::Duplication => "::core::clone::Clone, ::core::marker::Copy",
            Capability::StructuralEquality => "::core::cmp::PartialEq",
            Capability::TotalEquality => "::core::cmp::Eq",
            Capability::TotalOrdering => "::core::cmp::PartialOrd, ::core::cmp::Ord",
            Capability::Hashing => "::core::hash::Hash",
        }
    }
}

/// One case of a tag type: a variant without its payload.
#[derive(Clone, Debug, PartialEq, Eq)]
pub struct TagCase {
    /// The identifier of the variant.
    pub ident: String,
    /// The text of the explicit discriminant expression of the variant, if it
    /// has one.
    pub discriminant: Option<String>,
}

/// A case, with its texts as sequences of characters.
pub struct TagCaseView {
    pub ident: Seq<char>,
    pub discriminant: Option<Seq<char>>,
}

impl DeepView for TagCase {
    type V = TagCaseView;

    open spec fn deep_view(&self) -> TagCaseView {
        TagCaseView { ident: self.ident@, discriminant: self.discriminant.deep_view() }
    }
}

impl View for TagCase {
    type V = TagCaseView;

    open spec fn view(&self) -> TagCaseView {
        self.deep_view()
    }
}

/// The tag type of a sum type.
#[derive(Clone, Debug, PartialEq, Eq)]
pub struct DerivedTagDecl {
    pub ident: String,
    /// One case per variant of the sum type, in the order of the variants.
    pub cases: Vec<TagCase>,
    /// The capabilities that the declaration requests.
    pub capabilities: Vec<Capability>,
}

/// A tag type, with its texts as sequences of characters.
pub struct DerivedTagDeclView {
    pub ident: Seq<char>,
    pub cases: Seq<TagCaseView>,
    pub capabilities: Seq<Capability>,
}

impl DerivedTagDeclView {
    /// The cases copy the variants of `source`: as many, in the same order,
    /// under the same identifiers.
    pub open spec fn mirrors(self, source: SourceTypeDeclView) -> bool {
        &&& self.cases.len() == source.variants.len()
        &&& forall|i: int|
            0 <= i < self.cases.len() ==> (#[trigger] self.cases[i]).ident
                == source.variants[i].ident
    }
}

impl DeepView for DerivedTagDecl {
    type V = DerivedTagDeclView;

    open spec fn deep_view(&self) -> DerivedTagDeclView {
        DerivedTagDeclView {
            ident: self.ident@,
            cases: self.cases.deep_view(),
            capabilities: self.capabilities@,
        }
    }
}

impl View for DerivedTagDecl {
    type V = DerivedTagDeclView;

    open spec fn view(&self) -> DerivedTagDeclView {
        self.deep_view()
    }
}

/// The case that stands for `variant`: its identifier and discriminant as
/// they are, and no payload.
pub open spec fn unit_case(variant: VariantDeclView) -> TagCaseView {
    TagCaseView { ident: variant.ident, discriminant: variant.discriminant }
}

/// The identifier of the tag type of the sum type named `ident`.
pub open spec fn tag_ident(ident: Seq<char>) -> Seq<char> {
    ident + "Tag"@
}

/// The tag type of `source`.
pub open spec fn tag_decl(source: SourceTypeDeclView) -> DerivedTagDeclView {
    DerivedTagDeclView {
        ident: tag_ident(source.ident),
        cases: source.variants.map_values(|variant: VariantDeclView| unit_case(variant)),
        capabilities: Capability::all(),
    }
}

/// Turns `variant` into a case without payload. The identifier stays as it
/// is, and so does the discriminant where one is written; where none is, the
/// case has none either.
pub fn make_unit(variant: &VariantDecl) -> (case: TagCase)
    ensures
        case@ == unit_case(variant@),
{
    TagCase { ident: variant.ident.clone(), discriminant: copy_optional(&variant.discriminant) }
}

/// Derives the tag type of `source`.
///
/// The tag type is named after the sum type, with `Tag` behind the name. It
/// has one case per variant, in the order of the variants, and requests every
/// capability, whatever the payloads of the variants are.
pub fn synthesize(source: &SourceTypeDecl) -> (derived: DerivedTagDecl)
    ensures
        derived@ == tag_decl(source@),
        derived@.mirrors(source@),
{
    let mut ident = source.ident.clone();
    ident.append("Tag");
    let mut cases: Vec<TagCase> = Vec::new();
    let mut i: usize = 0;
    while i < source.variants.len()
        invariant
            i <= source.variants.len(),
            cases.len() == i,
            forall|j: int| 0 <= j < i ==> cases[j]@ == unit_case(#[trigger] source.variants[j]@),
        decreases source.variants.len() - i,
    {
        cases.push(make_unit(&source.variants[i]));
        i += 1;
    }
    let derived = DerivedTagDecl { ident, cases, capabilities: Capability::every() };
    assert(derived@.cases =~= tag_decl(source@).cases) by {
        assert forall|j: int| 0 <= j < cases.len() implies derived@.cases[j] == tag_decl(
            source@,
        ).cases[j] by {
            assert(cases[j]@ == unit_case(source.variants[j]@));
        }
    }
    derived
}

} // verus!
