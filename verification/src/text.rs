//! Source text built from pieces.

use vstd::prelude::*;
use vstd::string::*;

verus! {

/// `parts` written one after another, with `sep` between neighbours.
pub open spec fn separated(parts: Seq<Seq<char>>, sep: Seq<char>) -> Seq<char>
    decreases parts.len(),
{
    if parts.len() == 0 {
        Seq::empty()
    } else if parts.len() == 1 {
        parts[0]
    } else {
        separated(parts.drop_last(), sep) + sep + parts.last()
    }
}

/// `parts` written one after another, each followed by `end`.
pub open spec fn terminated(parts: Seq<Seq<char>>, end: Seq<char>) -> Seq<char>
    decreases parts.len(),
{
    if parts.len() == 0 {
        Seq::empty()
    } else {
        terminated(parts.drop_last(), end) + parts.last() + end
    }
}

/// `text` behind `lead`, or nothing where there is no text.
pub open spec fn introduced(lead: Seq<char>, text: Option<Seq<char>>) -> Seq<char> {
    match text {
        Some(t) => lead + t,
        None => Seq::empty(),
    }
}

/// `text` behind a space, or nothing where the text is empty.
pub open spec fn spaced(text: Seq<char>) -> Seq<char> {
    if text.len() == 0 {
        Seq::empty()
    } else {
        " "@ + text
    }
}

/// Writes `parts` one after another, with `sep` between neighbours.
pub fn join(parts: &Vec<String>, sep: &str) -> (out: String)
    ensures
        out@ == separated(parts.deep_view(), sep@),
{
    let ghost all = parts.deep_view();
    let mut out = String::new();
    let mut i: usize = 0;
    while i < parts.len()
        invariant
            i <= parts.len(),
            all == parts.deep_view(),
            out@ == separated(all.take(i as int), sep@),
        decreases parts.len() - i,
    {
        if i > 0 {
            out.append(sep);
        }
        out.append(parts[i].as_str());
        assert(all.take(i + 1).drop_last() =~= all.take(i as int));
        i += 1;
    }
    assert(all.take(parts.len() as int) =~= all);
    out
}

/// Writes `parts` one after another, each followed by `end`.
pub fn join_terminated(parts: &Vec<String>, end: &str) -> (out: String)
    ensures
        out@ == terminated(parts.deep_view(), end@),
{
    let ghost all = parts.deep_view();
    let mut out = String::new();
    let mut i: usize = 0;
    while i < parts.len()
        invariant
            i <= parts.len(),
            all == parts.deep_view(),
            out@ == terminated(all.take(i as int), end@),
        decreases parts.len() - i,
    {
        out.append(parts[i].as_str());
        out.append(end);
        assert(all.take(i + 1).drop_last() =~= all.take(i as int));
        i += 1;
    }
    assert(all.take(parts.len() as int) =~= all);
    out
}

/// Appends `text` behind `lead` to `out`, or nothing where there is no text.
pub fn append_introduced(out: &mut String, lead: &str, text: &Option<String>)
    ensures
        final(out)@ == old(out)@ + introduced(lead@, text.deep_view()),
{
    if let Some(t) = text {
        out.append(lead);
        out.append(t.as_str());
    }
}

/// Appends `text` behind a space to `out`, or nothing where the text is
/// empty.
pub fn append_spaced(out: &mut String, text: &str)
    ensures
        final(out)@ == old(out)@ + spaced(text@),
{
    if !text.is_empty() {
        out.append(" ");
        out.append(text);
    }
}

/// A copy of `texts`.
pub fn copy_texts(texts: &Vec<String>) -> (copy: Vec<String>)
    ensures
        copy.deep_view() == texts.deep_view(),
{
    let mut copy: Vec<String> = Vec::new();
    let mut i: usize = 0;
    while i < texts.len()
        invariant
            i <= texts.len(),
            copy.len() == i,
            forall|j: int| 0 <= j < i ==> copy[j]@ == texts[j]@,
        decreases texts.len() - i,
    {
        copy.push(texts[i].clone());
        i += 1;
    }
    copy
}

/// A copy of `text`.
pub fn copy_optional(text: &Option<String>) -> (copy: Option<String>)
    ensures
        copy.deep_view() == text.deep_view(),
{
    match text {
        Some(t) => Some(t.clone()),
        None => None,
    }
}

} // verus!
