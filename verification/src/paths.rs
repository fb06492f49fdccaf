use vstd::prelude::*;
use vstd::string::StringExecFns;

verus! {

/// Index of the first `true` in `s`: with one flag per candidate path, in
/// fallback order, saying whether that path exists, this is the candidate
/// that resolution picks.
pub open spec fn first_true(s: Seq<bool>) -> Option<int>
    decreases s.len(),
{
    if s.len() == 0 {
        None
    } else if s[0] {
        Some(0int)
    } else {
        match first_true(s.skip(1)) {
            Some(i) => Some(i + 1),
            None => None,
        }
    }
}

/// `first_true` picks an index whose flag is set and before which every flag
/// is clear, and returns `None` exactly when every flag is clear.
pub proof fn lemma_first_true_characterization(s: Seq<bool>)
    ensures
        match first_true(s) {
            Some(i) => 0 <= i < s.len() && s[i] && forall|j: int| 0 <= j < i ==> !s[j],
            None => forall|j: int| 0 <= j < s.len() ==> !s[j],
        },
    decreases s.len(),
{
    if s.len() == 0 {
    } else if s[0] {
    } else {
        lemma_first_true_characterization(s.skip(1));
        match first_true(s.skip(1)) {
            Some(i) => {
                assert(s.skip(1)[i] == s[i + 1]);
                assert forall|j: int| 0 <= j < i + 1 implies !s[j] by {
                    if j > 0 {
                        assert(s.skip(1)[j - 1] == s[j]);
                    }
                }
            },
            None => {
                assert forall|j: int| 0 <= j < s.len() implies !s[j] by {
                    if j > 0 {
                        assert(s.skip(1)[j - 1] == s[j]);
                    }
                }
            },
        }
    }
}

/// An index whose flag is set and before which every flag is clear is the one
/// `first_true` returns.
pub proof fn lemma_first_true_is(s: Seq<bool>, i: int)
    requires
        0 <= i < s.len(),
        s[i],
        forall|j: int| 0 <= j < i ==> !s[j],
    ensures
        first_true(s) == Some(i),
    decreases i,
{
    if i == 0 {
    } else {
        assert(!s[0]);
        assert forall|j: int| 0 <= j < i - 1 implies !s.skip(1)[j] by {
            assert(s.skip(1)[j] == s[j + 1]);
        }
        assert(s.skip(1)[i - 1] == s[i]);
        lemma_first_true_is(s.skip(1), i - 1);
    }
}

/// PathResolver for configuration resources: given one existence flag per
/// candidate path, in fallback order, returns the position of the first
/// existing candidate, or `None` when every candidate is absent.
pub fn resolve_first_existing(exists: &Vec<bool>) -> (r: Option<usize>)
    ensures
        match r {
            Some(i) => first_true(exists@) == Some(i as int),
            None => first_true(exists@) is None,
        },
{
    let n = exists.len();
    let mut k: usize = 0;
    while k < n
        invariant
            n == exists@.len(),
            k <= n,
            forall|j: int| 0 <= j < k ==> !exists@[j],
        decreases n - k,
    {
        if exists[k] {
            proof {
                lemma_first_true_is(exists@, k as int);
            }
            return Some(k);
        }
        k = k + 1;
    }
    proof {
        lemma_first_true_characterization(exists@);
        if first_true(exists@) is Some {
            let i = first_true(exists@)->Some_0;
            assert(exists@[i]);
        }
    }
    None
}

/// PathResolver for configuration resources, with the failure folded in: a
/// configuration resource absent from every tier is the fatal
/// `ConfigUnreadable`.
pub fn resolve_config(exists: &Vec<bool>) -> (r: Result<usize, crate::errors::HgenError>)
    ensures
        match r {
            Ok(i) => first_true(exists@) == Some(i as int),
            Err(e) => e == crate::errors::HgenError::ConfigUnreadable && first_true(exists@)
                is None,
        },
{
    match resolve_first_existing(exists) {
        Some(i) => Ok(i),
        None => Err(crate::errors::HgenError::ConfigUnreadable),
    }
}

/// The candidate chosen for a template resource: the first existing one, or —
/// since a missing template is only detected later, at render time — the last
/// candidate as an unconditional fallback.
pub open spec fn template_choice(s: Seq<bool>) -> int {
    match first_true(s) {
        Some(i) => i,
        None => s.len() - 1,
    }
}

/// PathResolver for template resources: the first existing candidate, or the
/// last candidate when none exists.
pub fn resolve_template(exists: &Vec<bool>) -> (r: usize)
    requires
        exists@.len() > 0,
    ensures
        r as int == template_choice(exists@),
{
    match resolve_first_existing(exists) {
        Some(i) => i,
        None => exists.len() - 1,
    }
}

/// Law: a resource present at the project tier always wins over the user
/// tier, whether or not the user-tier copy exists.
pub proof fn lemma_project_tier_wins(project_exists: bool, user_exists: bool)
    requires
        project_exists,
    ensures
        first_true(seq![project_exists, user_exists]) == Some(0int),
{
    assert(seq![project_exists, user_exists][0]);
}

/// Law: template resolution follows the two-axis precedence. Candidates, in
/// order: project/language, project/master, user/language, user/master.
/// Within each locality tier the language-specific template wins over the
/// master template, and the user tier is consulted only after both
/// project-tier candidates are absent.
pub proof fn lemma_template_two_axis_precedence(e: Seq<bool>)
    requires
        e.len() == 4,
    ensures
        e[0] ==> template_choice(e) == 0,
        !e[0] && e[1] ==> template_choice(e) == 1,
        !e[0] && !e[1] && e[2] ==> template_choice(e) == 2,
        !e[0] && !e[1] && !e[2] ==> template_choice(e) == 3,
{
    if e[0] {
        lemma_first_true_is(e, 0);
    } else if e[1] {
        lemma_first_true_is(e, 1);
    } else if e[2] {
        lemma_first_true_is(e, 2);
    } else if e[3] {
        lemma_first_true_is(e, 3);
    } else {
        lemma_first_true_characterization(e);
        if first_true(e) is Some {
            let i = first_true(e)->Some_0;
            assert(e[i]);
        }
    }
}

/// Builds `a + b + c` as one string.
fn concat3(a: &str, b: &str, c: &str) -> (r: String)
    ensures
        r@ == a@ + b@ + c@,
{
    let mut s = String::from_str(a);
    s.append(b);
    s.append(c);
    s
}

/// Builds `a + b + c + d` as one string.
fn concat4(a: &str, b: &str, c: &str, d: &str) -> (r: String)
    ensures
        r@ == a@ + b@ + c@ + d@,
{
    let mut s = String::from_str(a);
    s.append(b);
    s.append(c);
    s.append(d);
    s
}

/// The two candidate paths for a configuration resource named `name`
/// (language table or general settings), in fallback order: project tier
/// first, user tier second.
pub fn config_candidates(project_root: &String, user_config_root: &String, name: &String) -> (r:
    Vec<String>)
    ensures
        r@.len() == 2,
        r@[0]@ == project_root@ + "/.hgen/"@ + name@ + ".json"@,
        r@[1]@ == user_config_root@ + "/hgen/"@ + name@ + ".json"@,
{
    let mut r: Vec<String> = Vec::new();
    r.push(concat4(project_root.as_str(), "/.hgen/", name.as_str(), ".json"));
    r.push(concat4(user_config_root.as_str(), "/hgen/", name.as_str(), ".json"));
    r
}

/// The four candidate paths for the template of `language`, in fallback
/// order: within each locality tier the language-specific template comes
/// before the master template, and the project tier comes before the user
/// tier.
pub fn template_candidates(project_root: &String, user_config_root: &String, language: &String) -> (r:
    Vec<String>)
    ensures
        r@.len() == 4,
        r@[0]@ == project_root@ + "/.hgen/templates/"@ + language@ + ".hbs"@,
        r@[1]@ == project_root@ + "/.hgen/templates/"@ + "master.hbs"@,
        r@[2]@ == user_config_root@ + "/hgen/templates/"@ + language@ + ".hbs"@,
        r@[3]@ == user_config_root@ + "/hgen/templates/"@ + "master.hbs"@,
{
    let mut r: Vec<String> = Vec::new();
    r.push(concat4(project_root.as_str(), "/.hgen/templates/", language.as_str(), ".hbs"));
    r.push(concat3(project_root.as_str(), "/.hgen/templates/", "master.hbs"));
    r.push(concat4(user_config_root.as_str(), "/hgen/templates/", language.as_str(), ".hbs"));
    r.push(concat3(user_config_root.as_str(), "/hgen/templates/", "master.hbs"));
    r
}

} // verus!
