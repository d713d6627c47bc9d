//! Scope checks for service accounts: a granted scope covers a required one
//! when it is `*`, equal to it, or ends in `*` and the rest is a prefix of it.
use vstd::prelude::*;

use crate::text::{chars_eq, chars_of, has_prefix, starts_with, string_of};

verus! {

broadcast use vstd::string::group_string_axioms;

/// Granted scope `g` covers required scope `r`.
pub open spec fn scope_covers(g: Seq<char>, r: Seq<char>) -> bool {
    ||| g == "*"@
    ||| g == r
    ||| (g.len() >= 1 && g.last() == '*' && has_prefix(r, g.drop_last()))
}

/// Some scope in `granted` covers `r`.
pub open spec fn scopes_cover(granted: Seq<String>, r: Seq<char>) -> bool {
    exists|i: int| 0 <= i < granted.len() && scope_covers(#[trigger] granted[i]@, r)
}

fn covers(g: &String, required: &Vec<char>) -> (r: bool)
    ensures
        r == scope_covers(g@, required@),
{
    let gc = chars_of(g.as_str());
    let star = chars_of("*");
    if chars_eq(&gc, &star) {
        return true;
    }
    if chars_eq(&gc, required) {
        return true;
    }
    let n = gc.len();
    if n >= 1 && gc[n - 1] == '*' {
        let mut prefix: Vec<char> = Vec::new();
        let mut i: usize = 0;
        while i < n - 1
            invariant
                n == gc.len(),
                n >= 1,
                i <= n - 1,
                prefix@ == gc@.subrange(0, i as int),
            decreases n - 1 - i,
        {
            prefix.push(gc[i]);
            i = i + 1;
            assert(prefix@ =~= gc@.subrange(0, i as int));
        }
        assert(prefix@ =~= gc@.drop_last());
        return starts_with(required, &prefix);
    }
    false
}

/// Whether `granted_scopes` covers the scope `required`.
pub fn has_scope(granted_scopes: &[String], required: &str) -> (r: bool)
    ensures
        r == scopes_cover(granted_scopes@, required@),
{
    let req = chars_of(required);
    let mut i: usize = 0;
    while i < granted_scopes.len()
        invariant
            i <= granted_scopes@.len(),
            req@ == required@,
            forall|j: int| 0 <= j < i ==> !scope_covers(#[trigger] granted_scopes@[j]@, required@),
        decreases granted_scopes@.len() - i,
    {
        if covers(&granted_scopes[i], &req) {
            return true;
        }
        i = i + 1;
    }
    false
}

/// The first scope of `required` that `granted` does not cover, from `i` on.
pub open spec fn first_uncovered(granted: Seq<String>, required: Seq<String>, i: int) -> Option<
    Seq<char>,
>
    decreases required.len() - i,
{
    if i < 0 || i >= required.len() {
        None
    } else if !scopes_cover(granted, required[i]@) {
        Some(required[i]@)
    } else {
        first_uncovered(granted, required, i + 1)
    }
}

/// The first required scope that the granted scopes do not cover, or `None`
/// when they cover every required scope (the request may then proceed).
pub fn missing_scope(granted_scopes: &[String], required_scopes: &[String]) -> (r: Option<String>)
    ensures
        match r {
            Some(s) => first_uncovered(granted_scopes@, required_scopes@, 0) == Some(s@),
            None => first_uncovered(granted_scopes@, required_scopes@, 0) is None,
        },
        r is None <==> forall|i: int|
            0 <= i < required_scopes@.len() ==> scopes_cover(
                granted_scopes@,
                (#[trigger] required_scopes@[i])@,
            ),
{
    let mut i: usize = 0;
    while i < required_scopes.len()
        invariant
            i <= required_scopes@.len(),
            first_uncovered(granted_scopes@, required_scopes@, 0) == first_uncovered(
                granted_scopes@,
                required_scopes@,
                i as int,
            ),
            forall|j: int|
                0 <= j < i ==> scopes_cover(granted_scopes@, (#[trigger] required_scopes@[j])@),
        decreases required_scopes@.len() - i,
    {
        if !has_scope(granted_scopes, required_scopes[i].as_str()) {
            return Some(required_scopes[i].clone());
        }
        i = i + 1;
    }
    None
}

/// The text of the refusal for a scope that was required and not granted.
pub fn insufficient_scopes_message(required: &str) -> (m: String)
    ensures
        m@ == "Insufficient scopes. Required: "@ + required@,
{
    let a = chars_of("Insufficient scopes. Required: ");
    let b = chars_of(required);
    let c = crate::text::concat_chars(&a, &b);
    string_of(&c)
}


/// A granted `*` covers every required scope.
pub proof fn law_wildcard_covers_all(granted: Seq<String>, required: Seq<char>)
    requires
        exists|i: int| 0 <= i < granted.len() && (#[trigger] granted[i])@ == "*"@,
    ensures
        scopes_cover(granted, required),
{
    let i = choose|i: int| 0 <= i < granted.len() && (#[trigger] granted[i])@ == "*"@;
    assert(scope_covers(granted[i]@, required));
}

/// A scope that was granted verbatim is covered.
pub proof fn law_exact_scope_covered(granted: Seq<String>, required: Seq<char>)
    requires
        exists|i: int| 0 <= i < granted.len() && (#[trigger] granted[i])@ == required,
    ensures
        scopes_cover(granted, required),
{
    let i = choose|i: int| 0 <= i < granted.len() && (#[trigger] granted[i])@ == required;
    assert(scope_covers(granted[i]@, required));
}

/// A granted `p*` covers every scope that starts with `p`.
pub proof fn law_prefix_wildcard_covers(granted: Seq<String>, p: Seq<char>, required: Seq<char>)
    requires
        exists|i: int| 0 <= i < granted.len() && (#[trigger] granted[i])@ == p.push('*'),
        has_prefix(required, p),
    ensures
        scopes_cover(granted, required),
{
    let i = choose|i: int| 0 <= i < granted.len() && (#[trigger] granted[i])@ == p.push('*');
    assert(granted[i]@.drop_last() =~= p);
    assert(scope_covers(granted[i]@, required));
}

/// With no granted scope, nothing is covered.
pub proof fn law_nothing_granted_covers_nothing(granted: Seq<String>, required: Seq<char>)
    requires
        granted.len() == 0,
    ensures
        !scopes_cover(granted, required),
{
}

/// Granting more scopes never takes coverage away: when every scope of
/// `granted` is also in `more`, what `granted` covers `more` covers too.
pub proof fn law_coverage_monotonic(granted: Seq<String>, more: Seq<String>, required: Seq<char>)
    requires
        forall|i: int|
            0 <= i < granted.len() ==> exists|j: int|
                0 <= j < more.len() && (#[trigger] more[j])@ == (#[trigger] granted[i])@,
        scopes_cover(granted, required),
    ensures
        scopes_cover(more, required),
{
    let i = choose|i: int| 0 <= i < granted.len() && scope_covers(#[trigger] granted[i]@, required);
    let j = choose|j: int| 0 <= j < more.len() && (#[trigger] more[j])@ == granted[i]@;
    assert(scope_covers(more[j]@, required));
}

/// The request may proceed exactly when every required scope is covered;
/// otherwise the first scope that is not covered is the one reported.
pub proof fn law_missing_scope_is_first_uncovered(granted: Seq<String>, required: Seq<String>, i: int)
    requires
        0 <= i < required.len(),
        !scopes_cover(granted, required[i]@),
        forall|k: int| 0 <= k < i ==> scopes_cover(granted, (#[trigger] required[k])@),
    ensures
        first_uncovered(granted, required, 0) == Some(required[i]@),
{
    lemma_first_uncovered_from(granted, required, 0, i);
}

proof fn lemma_first_uncovered_from(granted: Seq<String>, required: Seq<String>, k: int, i: int)
    requires
        0 <= k <= i < required.len(),
        !scopes_cover(granted, required[i]@),
        forall|m: int| 0 <= m < i ==> scopes_cover(granted, (#[trigger] required[m])@),
    ensures
        first_uncovered(granted, required, k) == Some(required[i]@),
    decreases i - k,
{
    if k < i {
        assert(scopes_cover(granted, required[k]@));
        lemma_first_uncovered_from(granted, required, k + 1, i);
    }
}

} // verus!
