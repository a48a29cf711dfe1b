//! Model registry: resolution from a free-text display name to a small
//! closed set of canonical model identifiers, and the pricing table keyed
//! by those identifiers.

use crate::text::contains_check;
use crate::text::spec_contains;
use crate::text::str_eq_check;
use vstd::prelude::*;

verus! {

/// The canonical identifier for a display name: ordered substring match,
/// most specific pattern first ("glm-4.5" is checked before "glm-4", whose
/// pattern is a prefix of it). A name matching nothing falls back to the
/// 3.5-sonnet identifier rather than failing.
pub open spec fn spec_resolve_model(s: Seq<char>) -> Seq<char> {
    if spec_contains(s, "3-5-sonnet"@) {
        "3-5-sonnet-20241022"@
    } else if spec_contains(s, "haiku"@) {
        "3-haiku-20240307"@
    } else if spec_contains(s, "gpt-4"@) {
        "gpt-4"@
    } else if spec_contains(s, "gpt-3.5"@) {
        "gpt-3.5-turbo"@
    } else if spec_contains(s, "glm-4.5"@) {
        "glm-4.5"@
    } else if spec_contains(s, "glm-4"@) {
        "glm-4"@
    } else {
        "3-5-sonnet-20241022"@
    }
}

/// Resolves a display name to its canonical model identifier.
pub fn resolve_model_name(model_display: &str) -> (r: &'static str)
    ensures
        r@ == spec_resolve_model(model_display@),
{
    if contains_check(model_display, "3-5-sonnet") {
        "3-5-sonnet-20241022"
    } else if contains_check(model_display, "haiku") {
        "3-haiku-20240307"
    } else if contains_check(model_display, "gpt-4") {
        "gpt-4"
    } else if contains_check(model_display, "gpt-3.5") {
        "gpt-3.5-turbo"
    } else if contains_check(model_display, "glm-4.5") {
        "glm-4.5"
    } else if contains_check(model_display, "glm-4") {
        "glm-4"
    } else {
        "3-5-sonnet-20241022"
    }
}

/// The pricing entry for a canonical identifier, as (input, output) prices
/// in cents per million tokens; None when the identifier has no entry, in
/// which case the cost estimate degrades to zero.
pub open spec fn spec_pricing(m: Seq<char>) -> Option<(u64, u64)> {
    if m == "3-5-sonnet-20241022"@ {
        Some((300u64, 1500u64))
    } else if m == "3-haiku-20240307"@ {
        Some((25u64, 125u64))
    } else if m == "gpt-4"@ {
        Some((3000u64, 6000u64))
    } else if m == "gpt-3.5-turbo"@ {
        Some((50u64, 150u64))
    } else if m == "glm-4"@ {
        Some((500u64, 2500u64))
    } else if m == "glm-4.5"@ {
        Some((400u64, 1600u64))
    } else {
        None
    }
}

/// Looks up the pricing entry for a canonical model identifier.
pub fn get_pricing(model_name: &str) -> (r: Option<(u64, u64)>)
    ensures
        r == spec_pricing(model_name@),
{
    if str_eq_check(model_name, "3-5-sonnet-20241022") {
        Some((300, 1500))
    } else if str_eq_check(model_name, "3-haiku-20240307") {
        Some((25, 125))
    } else if str_eq_check(model_name, "gpt-4") {
        Some((3000, 6000))
    } else if str_eq_check(model_name, "gpt-3.5-turbo") {
        Some((50, 150))
    } else if str_eq_check(model_name, "glm-4") {
        Some((500, 2500))
    } else if str_eq_check(model_name, "glm-4.5") {
        Some((400, 1600))
    } else {
        None
    }
}

/// Every price in the table is at most 6000 cents per million tokens.
pub proof fn lemma_pricing_bounds(m: Seq<char>)
    ensures
        match spec_pricing(m) {
            Some(p) => p.0 <= 6000 && p.1 <= 6000,
            None => true,
        },
{
}

/// If a pattern occurs in a string, so does every prefix of the pattern.
proof fn lemma_contains_prefix(h: Seq<char>, n: Seq<char>, k: int)
    requires
        0 <= k <= n.len(),
        spec_contains(h, n),
    ensures
        spec_contains(h, n.subrange(0, k)),
{
    let i = choose|i: int|
        0 <= i && i + n.len() <= h.len() && #[trigger] h.subrange(i, i + n.len() as int) == n;
    assert forall|j: int| 0 <= j < k implies h.subrange(i, i + k)[j] == n.subrange(0, k)[j] by {
        assert(h.subrange(i, i + n.len() as int)[j] == n[j]);
    }
    assert(h.subrange(i, i + k) =~= n.subrange(0, k));
    assert(0 <= i && i + n.subrange(0, k).len() <= h.len() && h.subrange(
        i,
        i + n.subrange(0, k).len() as int,
    ) == n.subrange(0, k));
}

/// Law: substring priority in model resolution. A display name that
/// mentions "glm-4.5" — and none of the patterns checked before it —
/// resolves to the GLM-4.5 identifier and never to the GLM-4 identifier,
/// although "glm-4" also occurs in every such name as a prefix of
/// "glm-4.5".
pub proof fn lemma_glm45_beats_glm4(s: Seq<char>)
    requires
        spec_contains(s, "glm-4.5"@),
        !spec_contains(s, "3-5-sonnet"@),
        !spec_contains(s, "haiku"@),
        !spec_contains(s, "gpt-4"@),
        !spec_contains(s, "gpt-3.5"@),
    ensures
        spec_resolve_model(s) == "glm-4.5"@,
        spec_contains(s, "glm-4"@),
        spec_resolve_model(s) != "glm-4"@,
{
    reveal_strlit("glm-4.5");
    reveal_strlit("glm-4");
    lemma_contains_prefix(s, "glm-4.5"@, 5);
    assert("glm-4.5"@.subrange(0, 5) =~= "glm-4"@);
}

} // verus!
