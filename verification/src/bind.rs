//! The contract binder: the implementation that classifies every instance of
//! a sum type by a case of its tag type.

use crate::schema::{Generics, GenericsView, SourceTypeDecl, SourceTypeDeclView};
use crate::synth::{DerivedTagDecl, DerivedTagDeclView};
use vstd::prelude::*;
use vstd::string::*;

verus! {

/// One arm of the dispatch: instances of `variant`, whatever their payload,
/// are of case `case`.
#[derive(Clone, Debug, PartialEq, Eq)]
pub struct DispatchArm {
    /// The identifier of the variant that the arm matches.
    pub variant: String,
    /// The identifier of the case that the arm produces.
    pub case: String,
}

/// An arm, with its texts as sequences of characters.
pub struct DispatchArmView {
    pub variant: Seq<char>,
    pub case: Seq<char>,
}

impl DeepView for DispatchArm {
    type V = DispatchArmView;

    open spec fn deep_view(&self) -> DispatchArmView {
        DispatchArmView { variant: self.variant@, case: self.case@ }
    }
}

impl View for DispatchArm {
    type V = DispatchArmView;

    open spec fn view(&self) -> DispatchArmView {
        self.deep_view()
    }
}

/// A value of a sum type: the variant it was built as, and the text of each
/// value of its payload.
#[derive(Clone, Debug, PartialEq, Eq)]
pub struct Instance {
    pub variant: String,
    pub payload: Vec<String>,
}

/// An instance, with its texts as sequences of characters.
pub struct InstanceView {
    pub variant: Seq<char>,
    pub payload: Seq<Seq<char>>,
}

impl DeepView for Instance {
    type V = InstanceView;

    open spec fn deep_view(&self) -> InstanceView {
        InstanceView { variant: self.variant@, payload: self.payload.deep_view() }
    }
}

impl View for Instance {
    type V = InstanceView;

    open spec fn view(&self) -> InstanceView {
        self.deep_view()
    }
}

/// The implementation of the classification for one sum type.
#[derive(Clone, Debug, PartialEq, Eq)]
pub struct ClassifyBinding {
    /// The identifier of the sum type that is classified.
    pub receiver: String,
    /// The generic parameters of the sum type, with their constraints.
    pub generics: Generics,
    /// The identifier of the tag type.
    pub tag: String,
    /// One arm per variant, in the order of the variants, and no arm that
    /// matches anything else.
    pub arms: Vec<DispatchArm>,
}

/// A binding, with its texts as sequences of characters.
pub struct ClassifyBindingView {
    pub receiver: Seq<char>,
    pub generics: GenericsView,
    pub tag: Seq<char>,
    pub arms: Seq<DispatchArmView>,
}

impl DeepView for ClassifyBinding {
    type V = ClassifyBindingView;

    open spec fn deep_view(&self) -> ClassifyBindingView {
        ClassifyBindingView {
            receiver: self.receiver@,
            generics: self.generics@,
            tag: self.tag@,
            arms: self.arms.deep_view(),
        }
    }
}

impl View for ClassifyBinding {
    type V = ClassifyBindingView;

    open spec fn view(&self) -> ClassifyBindingView {
        self.deep_view()
    }
}

impl ClassifyBindingView {
    /// Arm `i` is the one that an instance of `variant` takes: it matches the
    /// variant, and no arm before it does.
    pub open spec fn selects(self, variant: Seq<char>, i: int) -> bool {
        &&& 0 <= i < self.arms.len()
        &&& self.arms[i].variant == variant
        &&& forall|j: int| 0 <= j < i ==> (#[trigger] self.arms[j]).variant != variant
    }

    /// Some arm matches `variant`.
    pub open spec fn covers(self, variant: Seq<char>) -> bool {
        exists|i: int| self.selects(variant, i)
    }

    /// The case of `instance`: what the arm that the instance takes produces.
    /// An instance that no arm matches has no case.
    pub open spec fn classify(self, instance: InstanceView) -> Option<Seq<char>> {
        if self.covers(instance.variant) {
            Some(self.arms[choose|i: int| self.selects(instance.variant, i)].case)
        } else {
            None
        }
    }
}

/// The arm of a variant named `ident`: it produces the case of that name.
pub open spec fn arm_of(ident: Seq<char>) -> DispatchArmView {
    DispatchArmView { variant: ident, case: ident }
}

/// The binding that classifies the instances of `source` by the cases of
/// `derived`: generic over the parameters of `source`, under its constraints,
/// with the arm of each variant in the place of the variant.
pub open spec fn binding_of(
    source: SourceTypeDeclView,
    derived: DerivedTagDeclView,
) -> ClassifyBindingView {
    ClassifyBindingView {
        receiver: source.ident,
        generics: source.generics,
        tag: derived.ident,
        arms: Seq::new(source.variants.len(), |i: int| arm_of(source.variants[i].ident)),
    }
}

/// Binds `source` to its tag type `derived`.
///
/// The binding has the generic parameters of `source` with their constraints,
/// no more and no fewer, and one arm per variant in the order of the
/// variants; the arm of a variant produces the case that has the identifier
/// of the variant.
pub fn bind(source: &SourceTypeDecl, derived: &DerivedTagDecl) -> (binding: ClassifyBinding)
    ensures
        binding@ == binding_of(source@, derived@),
{
    let mut arms: Vec<DispatchArm> = Vec::new();
    let mut i: usize = 0;
    while i < source.variants.len()
        invariant
            i <= source.variants.len(),
            arms.len() == i,
            forall|j: int| 0 <= j < i ==> (#[trigger] arms[j])@ == arm_of(source.variants[j].ident@),
        decreases source.variants.len() - i,
    {
        arms.push(
            DispatchArm {
                variant: source.variants[i].ident.clone(),
                case: source.variants[i].ident.clone(),
            },
        );
        i += 1;
    }
    let binding = ClassifyBinding {
        receiver: source.ident.clone(),
        generics: source.generics.duplicate(),
        tag: derived.ident.clone(),
        arms,
    };
    assert(binding@.arms =~= binding_of(source@, derived@).arms);
    binding
}

impl ClassifyBinding {
    /// Classifies `instance`: returns the identifier of the case that the
    /// first arm matching the variant of the instance produces, whatever the
    /// payload holds, and `None` where no arm matches.
    pub fn classify(&self, instance: &Instance) -> (case: Option<String>)
        ensures
            case.deep_view() == self@.classify(instance@),
    {
        let mut i: usize = 0;
        while i < self.arms.len()
            invariant
                i <= self.arms.len(),
                forall|j: int|
                    0 <= j < i ==> (#[trigger] self@.arms[j]).variant != instance@.variant,
            decreases self.arms.len() - i,
        {
            if self.arms[i].variant == instance.variant {
                assert(self@.selects(instance@.variant, i as int));
                return Some(self.arms[i].case.clone());
            }
            i += 1;
        }
        None
    }
}

} // verus!
