use vstd::prelude::*;
use vstd::string::StringExecFns;

use crate::assoc::{assoc_map, lemma_assoc_map_push};
use crate::config::LangConfig;

verus! {

/// The final variable mapping handed to the rendering engine: a list of
/// key/value pairs whose meaning is the map it denotes (`view`), with a later
/// pair overwriting an earlier one of the same key.
pub struct ResolvedVariables {
    pub pairs: Vec<(String, String)>,
}

impl View for ResolvedVariables {
    type V = Map<Seq<char>, Seq<char>>;

    open spec fn view(&self) -> Map<Seq<char>, Seq<char>> {
        assoc_map(self.pairs@)
    }
}

/// The predefined system variables: the formatted current date, the
/// language's line-comment token, the fully composed output filename, and the
/// requested language name.
pub open spec fn predefined_map(
    date: Seq<char>,
    line_comment: Seq<char>,
    filename: Seq<char>,
    language: Seq<char>,
) -> Map<Seq<char>, Seq<char>> {
    Map::empty().insert("date"@, date).insert("lc"@, line_comment).insert("fn"@, filename).insert(
        "lang"@,
        language,
    )
}

/// Inserting into the right-hand side of a right-preferring union is the same
/// as inserting into the union.
proof fn lemma_union_insert_right(
    a: Map<Seq<char>, Seq<char>>,
    b: Map<Seq<char>, Seq<char>>,
    k: Seq<char>,
    v: Seq<char>,
)
    ensures
        a.union_prefer_right(b).insert(k, v) == a.union_prefer_right(b.insert(k, v)),
{
    assert(a.union_prefer_right(b).insert(k, v) =~= a.union_prefer_right(b.insert(k, v)));
}

/// VariableResolver: merges the predefined variables (computed first, the
/// default) with the user-defined keyword map (merged in afterwards, so a
/// user keyword sharing a name with a predefined variable overwrites it —
/// never the reverse).
pub fn build_variables(
    lang: &LangConfig,
    keywords: &Vec<(String, String)>,
    filename: &String,
    language: &String,
    date: &String,
) -> (r: ResolvedVariables)
    ensures
        r@ == predefined_map(
            date@,
            lang.line_comment@,
            filename@,
            language@,
        ).union_prefer_right(assoc_map(keywords@)),
{
    let ghost pre = predefined_map(date@, lang.line_comment@, filename@, language@);
    let mut pairs: Vec<(String, String)> = Vec::new();

    let ghost p0 = pairs@;
    let k_date = String::from_str("date");
    let v_date = date.clone();
    proof {
        lemma_assoc_map_push(p0, k_date, v_date);
    }
    pairs.push((k_date, v_date));

    let ghost p1 = pairs@;
    let k_lc = String::from_str("lc");
    let v_lc = lang.line_comment.clone();
    proof {
        lemma_assoc_map_push(p1, k_lc, v_lc);
    }
    pairs.push((k_lc, v_lc));

    let ghost p2 = pairs@;
    let k_fn = String::from_str("fn");
    let v_fn = filename.clone();
    proof {
        lemma_assoc_map_push(p2, k_fn, v_fn);
    }
    pairs.push((k_fn, v_fn));

    let ghost p3 = pairs@;
    let k_lang = String::from_str("lang");
    let v_lang = language.clone();
    proof {
        lemma_assoc_map_push(p3, k_lang, v_lang);
    }
    pairs.push((k_lang, v_lang));

    proof {
        assert(assoc_map(pairs@) == pre);
        assert(keywords@.take(0) =~= Seq::<(String, String)>::empty());
        assert(pre.union_prefer_right(Map::empty()) =~= pre);
    }

    let n = keywords.len();
    let mut idx: usize = 0;
    while idx < n
        invariant
            n == keywords@.len(),
            idx <= n,
            assoc_map(pairs@) == pre.union_prefer_right(assoc_map(keywords@.take(idx as int))),
        decreases n - idx,
    {
        let k = keywords[idx].0.clone();
        let v = keywords[idx].1.clone();
        proof {
            lemma_assoc_map_push(pairs@, k, v);
            assert(keywords@.take(idx as int + 1).drop_last() =~= keywords@.take(idx as int));
            assert(keywords@.take(idx as int + 1).last() == keywords@[idx as int]);
            lemma_union_insert_right(pre, assoc_map(keywords@.take(idx as int)), k@, v@);
        }
        pairs.push((k, v));
        idx = idx + 1;
    }
    proof {
        assert(keywords@.take(n as int) =~= keywords@);
    }
    ResolvedVariables { pairs }
}

/// Law (merge precedence): a user-defined keyword overrides the predefined
/// variable of the same name in the final mapping.
pub proof fn lemma_user_keyword_overrides(
    date: Seq<char>,
    line_comment: Seq<char>,
    filename: Seq<char>,
    language: Seq<char>,
    keywords: Map<Seq<char>, Seq<char>>,
    k: Seq<char>,
)
    requires
        keywords.contains_key(k),
    ensures
        predefined_map(date, line_comment, filename, language).union_prefer_right(keywords)[k]
            == keywords[k],
{
}

/// Law (merge precedence, the other direction): a predefined variable that no
/// user keyword shadows keeps its predefined value.
pub proof fn lemma_predefined_kept_unless_shadowed(
    date: Seq<char>,
    line_comment: Seq<char>,
    filename: Seq<char>,
    language: Seq<char>,
    keywords: Map<Seq<char>, Seq<char>>,
    k: Seq<char>,
)
    requires
        !keywords.contains_key(k),
        predefined_map(date, line_comment, filename, language).contains_key(k),
    ensures
        predefined_map(date, line_comment, filename, language).union_prefer_right(keywords)[k]
            == predefined_map(date, line_comment, filename, language)[k],
{
}

} // verus!
