//! The declarations as source text.

use crate::bind::{ClassifyBinding, ClassifyBindingView, DispatchArm, DispatchArmView};
use crate::synth::{Capability, DerivedTagDecl, DerivedTagDeclView, TagCase, TagCaseView};
use crate::text::{
    append_introduced, append_spaced, introduced, join, join_terminated, separated, spaced,
    terminated,
};
use vstd::prelude::*;
use vstd::string::*;

verus! {

/// A case as the tag type declares it: the identifier and, where one is
/// written, the discriminant.
pub open spec fn case_text(case: TagCaseView) -> Seq<char> {
    case.ident + introduced(" = "@, case.discriminant)
}

/// Each of `cases` as the tag type declares it.
pub open spec fn case_texts(cases: Seq<TagCaseView>) -> Seq<Seq<char>> {
    cases.map_values(|case: TagCaseView| case_text(case))
}

/// The traits to derive for each of `capabilities`.
pub open spec fn derive_texts(capabilities: Seq<Capability>) -> Seq<Seq<char>> {
    capabilities.map_values(|capability: Capability| capability.derive_paths())
}

/// The declaration of a tag type: the derivations it requests, then a public
/// enumeration of its cases.
pub open spec fn tag_decl_text(derived: DerivedTagDeclView) -> Seq<char> {
    "#[derive("@ + separated(derive_texts(derived.capabilities), ", "@) + ")] pub enum "@
        + derived.ident + " { "@ + separated(case_texts(derived.cases), ", "@) + " }"@
}

/// An arm of the dispatch: the variant with any payload, then the case.
pub open spec fn arm_text(arm: DispatchArmView) -> Seq<char> {
    "Self::"@ + arm.variant + " { .. } => <Self as ::enum_tag::EnumTag>::Tag::"@ + arm.case
        + ","@
}

/// Each of `arms` as the dispatch writes it.
pub open spec fn arm_texts(arms: Seq<DispatchArmView>) -> Seq<Seq<char>> {
    arms.map_values(|arm: DispatchArmView| arm_text(arm))
}

/// The implementation of the classification: generic as the sum type is,
/// with the tag type as `Tag` and a `match` of the arms, without an arm for
/// anything else.
pub open spec fn binding_text(binding: ClassifyBindingView) -> Seq<char> {
    "impl"@ + binding.generics.impl_generics() + " ::enum_tag::EnumTag for "@ + binding.receiver
        + binding.generics.type_generics() + spaced(binding.generics.where_clause())
        + " { type Tag = "@ + binding.tag
        + "; fn tag(&self) -> <Self as ::enum_tag::EnumTag>::Tag { match self { "@ + terminated(
        arm_texts(binding.arms),
        " "@,
    ) + "} } }"@
}

/// Both declarations inside a scope without a name, so that nothing but the
/// tag type and the implementation can be seen from outside.
pub open spec fn expansion_text(derived: DerivedTagDeclView, binding: ClassifyBindingView) -> Seq<
    char,
> {
    "const _: () = { "@ + tag_decl_text(derived) + " "@ + binding_text(binding) + " };"@
}

impl TagCase {
    /// Writes the case as the tag type declares it.
    pub fn to_source(&self) -> (out: String)
        ensures
            out@ == case_text(self@),
    {
        let mut out = self.ident.clone();
        append_introduced(&mut out, " = ", &self.discriminant);
        out
    }
}

impl DerivedTagDecl {
    /// Writes the declaration of the tag type.
    pub fn to_source(&self) -> (out: String)
        ensures
            out@ == tag_decl_text(self@),
    {
        let mut derives: Vec<String> = Vec::new();
        let mut i: usize = 0;
        while i < self.capabilities.len()
            invariant
                i <= self.capabilities.len(),
                derives.len() == i,
                forall|j: int|
                    0 <= j < i ==> (#[trigger] derives[j])@ == self.capabilities[j].derive_paths(),
            decreases self.capabilities.len() - i,
        {
            derives.push(String::from_str(self.capabilities[i].derives()));
            i += 1;
        }
        assert(derives.deep_view() =~= derive_texts(self@.capabilities));
        let mut cases: Vec<String> = Vec::new();
        let mut k: usize = 0;
        while k < self.cases.len()
            invariant
                k <= self.cases.len(),
                cases.len() == k,
                forall|j: int| 0 <= j < k ==> (#[trigger] cases[j])@ == case_text(self.cases[j]@),
            decreases self.cases.len() - k,
        {
            cases.push(self.cases[k].to_source());
            k += 1;
        }
        assert(cases.deep_view() =~= case_texts(self@.cases));
        let mut out = String::from_str("#[derive(");
        out.append(join(&derives, ", ").as_str());
        out.append(")] pub enum ");
        out.append(self.ident.as_str());
        out.append(" { ");
        out.append(join(&cases, ", ").as_str());
        out.append(" }");
        out
    }
}

impl DispatchArm {
    /// Writes the arm as the dispatch writes it.
    pub fn to_source(&self) -> (out: String)
        ensures
            out@ == arm_text(self@),
    {
        let mut out = String::from_str("Self::");
        out.append(self.variant.as_str());
        out.append(" { .. } => <Self as ::enum_tag::EnumTag>::Tag::");
        out.append(self.case.as_str());
        out.append(",");
        out
    }
}

impl ClassifyBinding {
    /// Writes the implementation of the classification.
    pub fn to_source(&self) -> (out: String)
        ensures
            out@ == binding_text(self@),
    {
        let mut arms: Vec<String> = Vec::new();
        let mut i: usize = 0;
        while i < self.arms.len()
            invariant
                i <= self.arms.len(),
                arms.len() == i,
                forall|j: int| 0 <= j < i ==> (#[trigger] arms[j])@ == arm_text(self.arms[j]@),
            decreases self.arms.len() - i,
        {
            arms.push(self.arms[i].to_source());
            i += 1;
        }
        assert(arms.deep_view() =~= arm_texts(self@.arms));
        let split = self.generics.split_for_impl();
        let mut out = String::from_str("impl");
        out.append(split.impl_generics.as_str());
        out.append(" ::enum_tag::EnumTag for ");
        out.append(self.receiver.as_str());
        out.append(split.type_generics.as_str());
        append_spaced(&mut out, split.where_clause.as_str());
        out.append(" { type Tag = ");
        out.append(self.tag.as_str());
        out.append("; fn tag(&self) -> <Self as ::enum_tag::EnumTag>::Tag { match self { ");
        out.append(join_terminated(&arms, " ").as_str());
        out.append("} } }");
        out
    }
}

} // verus!
