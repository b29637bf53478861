//! What holds of every derivation.

use crate::bind::{binding_of, DispatchArmView, InstanceView};
use crate::derive::{expanded, expansion_of, output_of, ExpansionView, OutputView};
use crate::error::{RejectionView, UnsupportedKind};
use crate::schema::{FieldsView, SourceTypeDeclView, TypeDeclView, VariantDeclView};
use crate::synth::{tag_decl, Capability};
use vstd::prelude::*;

verus! {

/// `source` with the payload of variant `k` replaced by `fields`.
pub open spec fn with_payload(
    source: SourceTypeDeclView,
    k: int,
    fields: FieldsView,
) -> SourceTypeDeclView {
    SourceTypeDeclView {
        ident: source.ident,
        generics: source.generics,
        variants: source.variants.update(
            k,
            VariantDeclView {
                ident: source.variants[k].ident,
                fields,
                discriminant: source.variants[k].discriminant,
            },
        ),
    }
}

/// The tag type has exactly one case per variant of the sum type, in the
/// order of the variants and under their identifiers, and the binding has
/// exactly one arm per variant.
pub proof fn one_case_per_variant(source: SourceTypeDeclView)
    ensures
        tag_decl(source).cases.len() == source.variants.len(),
        forall|i: int|
            0 <= i < source.variants.len() ==> (#[trigger] tag_decl(source).cases[i]).ident
                == source.variants[i].ident,
        tag_decl(source).mirrors(source),
        expansion_of(source).binding.arms.len() == source.variants.len(),
        forall|i: int|
            0 <= i < source.variants.len() ==> (#[trigger] expansion_of(source).binding.arms[i])
                == (DispatchArmView {
                variant: source.variants[i].ident,
                case: tag_decl(source).cases[i].ident,
            }),
{
}

/// A case carries the discriminant of its variant: the one that is written,
/// or none where none is written.
pub proof fn discriminants_are_kept(source: SourceTypeDeclView, i: int)
    requires
        0 <= i < source.variants.len(),
    ensures
        tag_decl(source).cases[i].discriminant == source.variants[i].discriminant,
{
}

/// An instance built as a variant is classified as the case of that variant,
/// whatever the shape of the variant and whatever the payload holds.
pub proof fn classification_finds_the_case(
    source: SourceTypeDeclView,
    i: int,
    payload: Seq<Seq<char>>,
)
    requires
        0 <= i < source.variants.len(),
    ensures
        expansion_of(source).binding.classify(
            InstanceView { variant: source.variants[i].ident, payload },
        ) == Some(tag_decl(source).cases[i].ident),
{
    let binding = expansion_of(source).binding;
    let variant = source.variants[i].ident;
    let first = first_arm(source, variant, i);
    assert(binding.selects(variant, first));
    let chosen = choose|k: int| binding.selects(variant, k);
    assert(binding.selects(variant, chosen));
    assert(binding.arms[chosen].case == source.variants[chosen].ident);
}

/// In a sum type whose variants have distinct identifiers, an instance built
/// as a variant takes the arm of that variant, and no other arm matches it.
pub proof fn classification_takes_one_arm(source: SourceTypeDeclView, i: int)
    requires
        source.well_formed(),
        0 <= i < source.variants.len(),
    ensures
        expansion_of(source).binding.selects(source.variants[i].ident, i),
        forall|j: int|
            0 <= j < source.variants.len() && j != i ==> (#[trigger] expansion_of(
                source,
            ).binding.arms[j]).variant != source.variants[i].ident,
{
    let binding = expansion_of(source).binding;
    assert forall|j: int| 0 <= j < source.variants.len() && j != i implies (
    #[trigger] binding.arms[j]).variant != source.variants[i].ident by {
        if j < i {
            assert(source.variants[j].ident != source.variants[i].ident);
        } else {
            assert(source.variants[i].ident != source.variants[j].ident);
        }
    }
}

/// An instance of a variant that the sum type does not have is not
/// classified: the binding has no arm for anything but the variants.
pub proof fn classification_has_no_default(source: SourceTypeDeclView, instance: InstanceView)
    requires
        forall|i: int|
            0 <= i < source.variants.len() ==> (#[trigger] source.variants[i]).ident
                != instance.variant,
    ensures
        expansion_of(source).binding.classify(instance) is None,
{
    let binding = expansion_of(source).binding;
    assert forall|k: int| !binding.selects(instance.variant, k) by {
        if 0 <= k < binding.arms.len() {
            assert(source.variants[k].ident != instance.variant);
        }
    }
}

/// Changing the payload of a variant changes neither the tag type nor the
/// binding, and so neither the case of any instance.
pub proof fn payload_does_not_matter(source: SourceTypeDeclView, k: int, fields: FieldsView)
    requires
        0 <= k < source.variants.len(),
    ensures
        tag_decl(with_payload(source, k, fields)) == tag_decl(source),
        expansion_of(with_payload(source, k, fields)) == expansion_of(source),
        forall|instance: InstanceView|
            expansion_of(with_payload(source, k, fields)).binding.classify(instance)
                == #[trigger] expansion_of(source).binding.classify(instance),
{
    let changed = with_payload(source, k, fields);
    assert(tag_decl(changed).cases =~= tag_decl(source).cases);
    assert(binding_of(changed, tag_decl(changed)).arms =~= binding_of(
        source,
        tag_decl(source),
    ).arms);
}

/// A product type is refused as a product and a union as a union, each under
/// its own identifier and span; a refused declaration gives no declaration,
/// and a sum type is never refused.
pub proof fn only_sum_types_are_accepted(decl: TypeDeclView)
    ensures
        decl.body is Enum <==> expanded(decl) is Ok,
        decl.body is Enum <==> output_of(decl) is Done,
        decl.body is Struct ==> expanded(decl) == Err::<ExpansionView, RejectionView>(
            RejectionView { kind: UnsupportedKind::Product, ident: decl.ident, span: decl.span },
        ),
        decl.body is Union ==> expanded(decl) == Err::<ExpansionView, RejectionView>(
            RejectionView { kind: UnsupportedKind::Union, ident: decl.ident, span: decl.span },
        ),
        output_of(decl) matches OutputView::Rejected(diagnostic) ==> diagnostic.span == decl.span,
{
}

/// The tag type requests every capability, whatever the sum type holds.
pub proof fn every_capability_is_requested(source: SourceTypeDeclView, capability: Capability)
    ensures
        tag_decl(source).capabilities == Capability::all(),
        tag_decl(source).capabilities.contains(capability),
{
    let all = Capability::all();
    assert(all[0] == Capability::DebugPrint);
    assert(all[1] == Capability::Duplication);
    assert(all[2] == Capability::StructuralEquality);
    assert(all[3] == Capability::TotalEquality);
    assert(all[4] == Capability::TotalOrdering);
    assert(all[5] == Capability::Hashing);
}

/// The first arm that matches `variant`, given that arm `bound` matches it.
proof fn first_arm(source: SourceTypeDeclView, variant: Seq<char>, bound: int) -> (first: int)
    requires
        0 <= bound < source.variants.len(),
        source.variants[bound].ident == variant,
    ensures
        0 <= first <= bound,
        expansion_of(source).binding.selects(variant, first),
    decreases bound,
{
    let binding = expansion_of(source).binding;
    if exists|j: int| 0 <= j < bound && source.variants[j].ident == variant {
        let j = choose|j: int| 0 <= j < bound && source.variants[j].ident == variant;
        first_arm(source, variant, j)
    } else {
        assert forall|j: int| 0 <= j < bound implies (#[trigger] binding.arms[j]).variant
            != variant by {
            assert(source.variants[j].ident != variant);
        }
        bound
    }
}

} // verus!
