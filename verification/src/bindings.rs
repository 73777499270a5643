//! The bindings that were in force when a crate was compiled, as pairs of a
//! name and a value, and what stands in for a value that is missing.

use vstd::prelude::*;
use crate::text::same_text;

verus! {

/// What is returned in place of a field that has no binding.
pub open spec fn fallback() -> Seq<char> {
    "N/A"@
}

/// `field`, or the fallback where there is none.
pub open spec fn or_fallback(field: Option<Seq<char>>) -> Seq<char> {
    match field {
        Some(text) => text,
        None => fallback(),
    }
}

/// The value that `vars` binds `name` to: that of the first pair with this
/// name, nothing where no pair has it.
pub open spec fn binding(vars: Seq<(Seq<char>, Seq<char>)>, name: Seq<char>) -> Option<Seq<char>>
    decreases vars.len(),
{
    if vars.len() == 0 {
        None
    } else if vars[0].0 == name {
        Some(vars[0].1)
    } else {
        binding(vars.skip(1), name)
    }
}

/// Looks up what `vars` binds `name` to: the value of the first pair with
/// this name.
pub fn lookup(vars: &Vec<(String, String)>, name: &str) -> (r: Option<String>)
    ensures
        r.deep_view() == binding(vars.deep_view(), name@),
{
    let ghost all = vars.deep_view();
    let mut i: usize = 0;
    proof {
        assert(all.skip(0) =~= all);
    }
    while i < vars.len()
        invariant
            i <= vars.len(),
            all == vars.deep_view(),
            binding(all.skip(i as int), name@) == binding(all, name@),
        decreases vars.len() - i,
    {
        proof {
            assert(all.skip(i as int)[0] == all[i as int]);
            assert(all.skip(i as int).skip(1) =~= all.skip(i + 1));
        }
        if same_text(vars[i].0.as_str(), name) {
            return Some(vars[i].1.clone());
        }
        i += 1;
    }
    None
}

/// A field as borrowed text.
pub fn borrowed(field: &Option<String>) -> (r: Option<&str>)
    ensures
        r.deep_view() == field.deep_view(),
{
    match field {
        Some(text) => Some(text.as_str()),
        None => None,
    }
}

/// A field as borrowed text, with the fallback in place of a missing one.
pub fn borrowed_or_fallback(field: &Option<String>) -> (r: &str)
    ensures
        r@ == or_fallback(field.deep_view()),
{
    match field {
        Some(text) => text.as_str(),
        None => "N/A",
    }
}

} // verus!
