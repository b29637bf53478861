//! Generic parameters as an implementation of a trait writes them: once
//! behind `impl`, where they are declared, and once behind the name of the
//! type, where they are used.

use crate::schema::{GenericParam, GenericParamKind, GenericParamView, Generics, GenericsView};
use crate::text::{
    append_introduced, copy_optional, copy_texts, introduced, join, join_terminated, separated,
    terminated,
};
use vstd::prelude::*;
use vstd::string::*;

verus! {

impl GenericParamView {
    /// The parameter is a lifetime.
    pub open spec fn is_lifetime(self) -> bool {
        self.kind == GenericParamKind::Lifetime
    }

    /// The keyword that stands before the name where the parameter is
    /// declared.
    pub open spec fn keyword(self) -> Seq<char> {
        if self.kind == GenericParamKind::Const {
            "const "@
        } else {
            Seq::empty()
        }
    }

    /// The parameter as `impl` declares it: attributes, name and bounds,
    /// without the default.
    pub open spec fn declared(self) -> Seq<char> {
        terminated(self.attrs, " "@) + self.keyword() + self.name + introduced(": "@, self.bounds)
    }
}

/// The lifetime parameters among `params`, in their order.
pub open spec fn lifetimes(params: Seq<GenericParamView>) -> Seq<GenericParamView> {
    params.filter(|param: GenericParamView| param.is_lifetime())
}

/// The type and const parameters among `params`, in their order.
pub open spec fn non_lifetimes(params: Seq<GenericParamView>) -> Seq<GenericParamView> {
    params.filter(|param: GenericParamView| !param.is_lifetime())
}

/// Each of `params` as `impl` declares it.
pub open spec fn declarations(params: Seq<GenericParamView>) -> Seq<Seq<char>> {
    params.map_values(|param: GenericParamView| param.declared())
}

/// The name of each of `params`.
pub open spec fn names(params: Seq<GenericParamView>) -> Seq<Seq<char>> {
    params.map_values(|param: GenericParamView| param.name)
}

/// `items` between angle brackets, or nothing where there are none.
pub open spec fn bracketed(items: Seq<Seq<char>>) -> Seq<char> {
    if items.len() == 0 {
        Seq::empty()
    } else {
        "<"@ + separated(items, ", "@) + ">"@
    }
}

impl GenericsView {
    /// The parameters with the lifetimes before the others, each group in
    /// declared order.
    pub open spec fn lifetimes_first(self) -> Seq<GenericParamView> {
        lifetimes(self.params) + non_lifetimes(self.params)
    }

    /// What stands behind `impl`: every parameter with its bounds and
    /// without its default.
    pub open spec fn impl_generics(self) -> Seq<char> {
        bracketed(declarations(self.lifetimes_first()))
    }

    /// What stands behind the name of the type: the names of the parameters.
    pub open spec fn type_generics(self) -> Seq<char> {
        bracketed(names(self.lifetimes_first()))
    }

    /// The `where` clause, or nothing where it has no predicate.
    pub open spec fn where_clause(self) -> Seq<char> {
        if self.predicates.len() == 0 {
            Seq::empty()
        } else {
            "where "@ + separated(self.predicates, ", "@)
        }
    }
}

/// The three places of an implementation that speak of generic parameters.
#[derive(Clone, Debug, PartialEq, Eq)]
pub struct SplitGenerics {
    /// What stands behind `impl`.
    pub impl_generics: String,
    /// What stands behind the name of the type.
    pub type_generics: String,
    /// The `where` clause.
    pub where_clause: String,
}

/// What one more parameter adds to the lifetimes and to the others.
proof fn lemma_lifetimes_step(params: Seq<GenericParamView>, i: int)
    requires
        0 <= i < params.len(),
    ensures
        lifetimes(params.take(i + 1)) == if params[i].is_lifetime() {
            lifetimes(params.take(i)).push(params[i])
        } else {
            lifetimes(params.take(i))
        },
        non_lifetimes(params.take(i + 1)) == if params[i].is_lifetime() {
            non_lifetimes(params.take(i))
        } else {
            non_lifetimes(params.take(i)).push(params[i])
        },
{
    reveal(Seq::filter);
    assert(params.take(i + 1).drop_last() =~= params.take(i));
}

/// Appends `text` to `texts`.
fn push_text(texts: &mut Vec<String>, text: String)
    ensures
        final(texts).deep_view() == old(texts).deep_view().push(text@),
{
    texts.push(text);
}

/// Writes `items` between angle brackets, or nothing where there are none.
fn bracket(items: &Vec<String>) -> (out: String)
    ensures
        out@ == bracketed(items.deep_view()),
{
    let mut out = String::new();
    if items.len() > 0 {
        out.append("<");
        let inner = join(items, ", ");
        out.append(inner.as_str());
        out.append(">");
    }
    out
}

impl GenericParam {
    /// A copy of the parameter.
    pub fn duplicate(&self) -> (copy: GenericParam)
        ensures
            copy@ == self@,
    {
        GenericParam {
            attrs: copy_texts(&self.attrs),
            kind: self.kind,
            name: self.name.clone(),
            bounds: copy_optional(&self.bounds),
            default: copy_optional(&self.default),
        }
    }

    /// Says whether the parameter is a lifetime.
    pub fn is_lifetime(&self) -> (yes: bool)
        ensures
            yes == self@.is_lifetime(),
    {
        self.kind == GenericParamKind::Lifetime
    }

    /// Writes the parameter as `impl` declares it: attributes, name and
    /// bounds, without the default.
    pub fn declared(&self) -> (out: String)
        ensures
            out@ == self@.declared(),
    {
        let mut out = join_terminated(&self.attrs, " ");
        if self.kind == GenericParamKind::Const {
            out.append("const ");
        }
        out.append(self.name.as_str());
        append_introduced(&mut out, ": ", &self.bounds);
        out
    }
}

impl Generics {
    /// A copy of the parameters and predicates.
    pub fn duplicate(&self) -> (copy: Generics)
        ensures
            copy@ == self@,
    {
        let mut params: Vec<GenericParam> = Vec::new();
        let mut i: usize = 0;
        while i < self.params.len()
            invariant
                i <= self.params.len(),
                params.len() == i,
                forall|j: int| 0 <= j < i ==> params[j]@ == self.params[j]@,
            decreases self.params.len() - i,
        {
            params.push(self.params[i].duplicate());
            i += 1;
        }
        assert(params.deep_view() =~= self.params.deep_view());
        Generics { params, predicates: copy_texts(&self.predicates) }
    }

    /// Writes the parameters for the three places of an implementation:
    /// behind `impl` with bounds and without defaults, behind the name of the
    /// type by name alone, and the `where` clause. In the first two the
    /// lifetimes come before the other parameters.
    pub fn split_for_impl(&self) -> (split: SplitGenerics)
        ensures
            split.impl_generics@ == self@.impl_generics(),
            split.type_generics@ == self@.type_generics(),
            split.where_clause@ == self@.where_clause(),
    {
        let ghost all = self.params.deep_view();
        let mut declared: Vec<String> = Vec::new();
        let mut named: Vec<String> = Vec::new();
        assert(declared.deep_view() =~= declarations(lifetimes(all.take(0)))) by {
            reveal(Seq::filter);
        }
        assert(named.deep_view() =~= names(lifetimes(all.take(0)))) by {
            reveal(Seq::filter);
        }
        let mut i: usize = 0;
        while i < self.params.len()
            invariant
                i <= self.params.len(),
                all == self.params.deep_view(),
                declared.deep_view() == declarations(lifetimes(all.take(i as int))),
                named.deep_view() == names(lifetimes(all.take(i as int))),
            decreases self.params.len() - i,
        {
            let param = &self.params[i];
            proof {
                lemma_lifetimes_step(all, i as int);
            }
            if param.is_lifetime() {
                push_text(&mut declared, param.declared());
                push_text(&mut named, param.name.clone());
            }
            i += 1;
        }
        assert(all.take(self.params.len() as int) =~= all);
        assert(non_lifetimes(all.take(0)) =~= Seq::<GenericParamView>::empty()) by {
            reveal(Seq::filter);
        }
        let mut k: usize = 0;
        while k < self.params.len()
            invariant
                k <= self.params.len(),
                all == self.params.deep_view(),
                declared.deep_view() == declarations(
                    lifetimes(all) + non_lifetimes(all.take(k as int)),
                ),
                named.deep_view() == names(lifetimes(all) + non_lifetimes(all.take(k as int))),
            decreases self.params.len() - k,
        {
            let param = &self.params[k];
            proof {
                lemma_lifetimes_step(all, k as int);
            }
            if !param.is_lifetime() {
                push_text(&mut declared, param.declared());
                push_text(&mut named, param.name.clone());
            }
            k += 1;
        }
        assert(all.take(self.params.len() as int) =~= all);
        let mut where_clause = String::new();
        if self.predicates.len() > 0 {
            where_clause.append("where ");
            let predicates = join(&self.predicates, ", ");
            where_clause.append(predicates.as_str());
        }
        SplitGenerics {
            impl_generics: bracket(&declared),
            type_generics: bracket(&named),
            where_clause,
        }
    }
}

} // verus!
