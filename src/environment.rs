//! The whitelist of environment variables that the info page may show:
//! orchestrator-provided names and a few fixed ones. Every other variable,
//! secrets included, stays hidden.
use vstd::prelude::*;
use vstd::string::*;

verus! {

/// Whether `p` begins `s`.
pub open spec fn has_prefix(s: Seq<char>, p: Seq<char>) -> bool {
    p.len() <= s.len() && s.subrange(0, p.len() as int) == p
}

/// Whether a variable of this name may be shown.
pub open spec fn exposed_key(k: Seq<char>) -> bool {
    ||| has_prefix(k, "KUBERNETES_"@)
    ||| has_prefix(k, "OPENSHIFT_"@)
    ||| has_prefix(k, "POD_"@)
    ||| k == "HOSTNAME"@
    ||| k == "HOME"@
    ||| k == "PATH"@
    ||| k == "RUST_LOG"@
    ||| k == "APP_VERSION"@
}

/// A name and value pair, as text.
pub open spec fn pair_view(p: (String, String)) -> (Seq<char>, Seq<char>) {
    (p.0@, p.1@)
}

/// The exposed pairs of `vars`, in their order.
pub open spec fn exposed_pairs(vars: Seq<(Seq<char>, Seq<char>)>) -> Seq<(Seq<char>, Seq<char>)>
    decreases vars.len(),
{
    if vars.len() == 0 {
        vars
    } else {
        let rest = exposed_pairs(vars.drop_last());
        if exposed_key(vars.last().0) {
            rest.push(vars.last())
        } else {
            rest
        }
    }
}

/// Whether `s` begins with `p`.
pub fn starts_with_text(s: &str, p: &str) -> (r: bool)
    ensures
        r == has_prefix(s@, p@),
{
    let n = p.unicode_len();
    if n > s.unicode_len() {
        return false;
    }
    let mut i: usize = 0;
    while i < n
        invariant
            n == p@.len(),
            n <= s@.len(),
            i <= n,
            forall|j: int| 0 <= j < i ==> s@[j] == p@[j],
        decreases n - i,
    {
        if s.get_char(i) != p.get_char(i) {
            assert(s@.subrange(0, n as int)[i as int] != p@[i as int]);
            return false;
        }
        i = i + 1;
    }
    assert(s@.subrange(0, n as int) =~= p@);
    true
}

/// Whether `s` and `t` are the same text.
pub fn same_text(s: &str, t: &str) -> (r: bool)
    ensures
        r == (s@ == t@),
{
    if s.unicode_len() != t.unicode_len() {
        return false;
    }
    assert(s@.subrange(0, t@.len() as int) =~= s@);
    starts_with_text(s, t)
}

/// Whether a variable named `key` may be shown.
pub fn is_exposed_key(key: &str) -> (r: bool)
    ensures
        r == exposed_key(key@),
{
    starts_with_text(key, "KUBERNETES_") || starts_with_text(key, "OPENSHIFT_")
        || starts_with_text(key, "POD_") || same_text(key, "HOSTNAME") || same_text(key, "HOME")
        || same_text(key, "PATH") || same_text(key, "RUST_LOG") || same_text(key, "APP_VERSION")
}

/// The variables of `vars` that may be shown, in their order, values kept.
pub fn exposed_environment(vars: &Vec<(String, String)>) -> (r: Vec<(String, String)>)
    ensures
        r@.map_values(|p: (String, String)| pair_view(p)) == exposed_pairs(
            vars@.map_values(|p: (String, String)| pair_view(p)),
        ),
        forall|i: int| 0 <= i < r.len() ==> exposed_key(#[trigger] r@[i].0@),
{
    let ghost all = vars@.map_values(|p: (String, String)| pair_view(p));
    let mut out: Vec<(String, String)> = Vec::new();
    let mut i: usize = 0;
    while i < vars.len()
        invariant
            i <= vars.len(),
            all == vars@.map_values(|p: (String, String)| pair_view(p)),
            out@.map_values(|p: (String, String)| pair_view(p)) == exposed_pairs(
                all.subrange(0, i as int),
            ),
            forall|j: int| 0 <= j < out.len() ==> exposed_key(#[trigger] out@[j].0@),
        decreases vars.len() - i,
    {
        let ghost before = out@;
        assert(all.subrange(0, i + 1).drop_last() =~= all.subrange(0, i as int));
        if is_exposed_key(vars[i].0.as_str()) {
            let k = vars[i].0.clone();
            let v = vars[i].1.clone();
            out.push((k, v));
            assert(out@.map_values(|p: (String, String)| pair_view(p)) =~= before.map_values(
                |p: (String, String)| pair_view(p),
            ).push(all[i as int]));
        }
        i = i + 1;
    }
    assert(all.subrange(0, vars.len() as int) =~= all);
    out
}

/// Every pair that the whitelist lets through has an exposed name, and it
/// came from the input: a variable outside the whitelist never appears.
pub proof fn lemma_only_whitelisted_exposed(vars: Seq<(Seq<char>, Seq<char>)>)
    ensures
        forall|i: int|
            0 <= i < exposed_pairs(vars).len() ==> exposed_key(#[trigger] exposed_pairs(vars)[i].0)
                && vars.contains(exposed_pairs(vars)[i]),
    decreases vars.len(),
{
    if vars.len() > 0 {
        let rest = vars.drop_last();
        lemma_only_whitelisted_exposed(rest);
        assert forall|i: int|
            0 <= i < exposed_pairs(vars).len() implies exposed_key(
                #[trigger] exposed_pairs(vars)[i].0,
            ) && vars.contains(exposed_pairs(vars)[i]) by {
            if i < exposed_pairs(rest).len() {
                assert(exposed_pairs(vars)[i] == exposed_pairs(rest)[i]);
                assert(exposed_key(exposed_pairs(rest)[i].0));
                assert(rest.contains(exposed_pairs(rest)[i]));
                let j = choose|j: int| 0 <= j < rest.len() && rest[j] == exposed_pairs(rest)[i];
                assert(vars[j] == rest[j]);
            } else {
                assert(vars[vars.len() - 1] == vars.last());
            }
        }
    }
}

} // verus!
