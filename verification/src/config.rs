use vstd::prelude::*;

use crate::assoc::{assoc_get, assoc_map};
use crate::errors::HgenError;

verus! {

/// One entry of the language table: the metadata of a single language.
/// `file_extension` maps a file-type label (such as a source file versus a
/// header file) to the extension appended to the output filename.
#[derive(Debug, Clone)]
pub struct LangConfig {
    pub language: String,
    pub line_comment: String,
    pub file_extension: Vec<(String, String)>,
    pub shebang: Option<String>,
}

/// The global settings record: user-defined template variables, the
/// strftime-style date format, and whether a shebang is prepended by default.
#[derive(Debug)]
pub struct GenConfig {
    pub keywords: Vec<(String, String)>,
    pub date_format: String,
    pub shebang_by_default: bool,
}

/// The first entry of `table` whose `language` field equals `name`
/// (case-sensitive exact match), if any.
pub open spec fn lang_lookup(table: Seq<LangConfig>, name: Seq<char>) -> Option<LangConfig>
    decreases table.len(),
{
    if table.len() == 0 {
        None
    } else if table[0].language@ == name {
        Some(table[0])
    } else {
        lang_lookup(table.skip(1), name)
    }
}

/// What `lang_lookup` finds always carries the requested name, and it finds
/// an entry exactly when some entry of the table carries that name.
pub proof fn lemma_lang_lookup_characterization(table: Seq<LangConfig>, name: Seq<char>)
    ensures
        match lang_lookup(table, name) {
            Some(lc) => lc.language@ == name && exists|i: int|
                0 <= i < table.len() && table[i] == lc,
            None => forall|i: int| 0 <= i < table.len() ==> table[i].language@ != name,
        },
    decreases table.len(),
{
    if table.len() == 0 {
    } else if table[0].language@ == name {
        assert(table[0] == lang_lookup(table, name)->Some_0);
    } else {
        lemma_lang_lookup_characterization(table.skip(1), name);
        match lang_lookup(table.skip(1), name) {
            Some(lc) => {
                let i = choose|i: int| 0 <= i < table.skip(1).len() && table.skip(1)[i] == lc;
                assert(table[i + 1] == lc);
            },
            None => {
                assert forall|i: int| 0 <= i < table.len() implies table[i].language@ != name by {
                    if i > 0 {
                        assert(table.skip(1)[i - 1] == table[i]);
                    }
                }
            },
        }
    }
}

/// LanguageConfigStore: resolves one language's metadata by exact name match
/// against the loaded table; fails with `LanguageNotFound` when no entry
/// matches.
pub fn select_language<'a>(table: &'a Vec<LangConfig>, language: &String) -> (r: Result<
    &'a LangConfig,
    HgenError,
>)
    ensures
        match r {
            Ok(c) => lang_lookup(table@, language@) == Some(*c),
            Err(e) => e == HgenError::LanguageNotFound && lang_lookup(table@, language@) is None,
        },
{
    proof {
        assert(table@.skip(0) =~= table@);
    }
    let n = table.len();
    let mut k: usize = 0;
    while k < n
        invariant
            n == table@.len(),
            k <= n,
            lang_lookup(table@, language@) == lang_lookup(table@.skip(k as int), language@),
        decreases n - k,
    {
        proof {
            assert(table@.skip(k as int)[0] == table@[k as int]);
        }
        if table[k].language == *language {
            return Ok(&table[k]);
        }
        proof {
            assert(table@.skip(k as int).skip(1) =~= table@.skip(k as int + 1));
        }
        k = k + 1;
    }
    proof {
        assert(table@.skip(n as int) =~= Seq::<LangConfig>::empty());
    }
    Err(HgenError::LanguageNotFound)
}

/// Selects the extension for the requested file-type label out of the matched
/// entry's extension map; fails with `UnknownFileType` when the label is
/// absent.
pub fn lookup_extension<'a>(config: &'a LangConfig, filetype: &String) -> (r: Result<
    &'a String,
    HgenError,
>)
    ensures
        match r {
            Ok(ext) => assoc_map(config.file_extension@).contains_key(filetype@) && ext@
                == assoc_map(config.file_extension@)[filetype@],
            Err(e) => e == HgenError::UnknownFileType && !assoc_map(
                config.file_extension@,
            ).contains_key(filetype@),
        },
{
    match assoc_get(&config.file_extension, filetype) {
        Some(ext) => Ok(ext),
        None => Err(HgenError::UnknownFileType),
    }
}

} // verus!
