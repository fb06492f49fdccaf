use std::fmt::Write;
use vstd::prelude::*;
use vstd::string::StringExecFns;

use crate::assoc::assoc_map;
use crate::cli::Cli;
use crate::config::{
    lang_lookup, lemma_lang_lookup_characterization, lookup_extension, select_language, GenConfig,
    LangConfig,
};
use crate::errors::HgenError;
use crate::shebang::{apply_shebang, shebang_outcome};
use crate::vars::{build_variables, predefined_map, ResolvedVariables};

verus! {

/// Whether chrono can format an instant with a date-format string; a
/// function of the string's characters alone.
pub uninterp spec fn strftime_valid(fmt: Seq<char>) -> bool;

/// Relies on `chrono::DateTime::format` and the `Display` of the
/// `DelayedFormat` it returns: trial-formatting a fixed instant surfaces an
/// invalid specifier, and equally a parse-only specifier that no formatting
/// arm handles, as a formatter error. Which arm an item takes depends on the
/// format string alone — a `DateTime` supplies a date, a time and an offset
/// to every arm, and the values themselves never make one fail — so
/// acceptance is a function of the string, the same for every instant.
#[verifier::external_body]
fn strftime_ok(fmt: &str) -> (r: bool)
    ensures
        r == strftime_valid(fmt@),
{
    let mut out = String::new();
    write!(out, "{}", chrono::DateTime::<chrono::Utc>::UNIX_EPOCH.format(fmt)).is_ok()
}

/// Relies on `chrono::Utc::now` and `DateTime::format`: formats the current
/// UTC time with an accepted strftime pattern (materialising the text with a
/// rejected pattern would panic, so the pattern must pass the trial first).
/// The result depends on the clock, so nothing is promised of its value.
/// `Utc::now` itself needs a system clock within chrono's representable
/// range, as every use of the clock here does.
#[verifier::external_body]
fn format_current_date(fmt: &str) -> (r: String)
    requires
        strftime_valid(fmt@),
{
    chrono::Utc::now().format(fmt).to_string()
}

/// Whether handlebars parses a template text; a function of the text alone.
pub uninterp spec fn template_ok(template: Seq<char>) -> bool;

/// Relies on `handlebars::Template::compile`: whether a template text parses
/// depends on the text alone.
#[verifier::external_body]
fn template_compiles(template: &str) -> (r: bool)
    ensures
        r == template_ok(template@),
{
    handlebars::Template::compile(template).is_ok()
}

/// What strict-mode rendering produces for a template text and a variable
/// mapping: the rendered text, or `None` where rendering fails (in strict
/// mode, on a reference to a variable absent from the mapping). A function
/// of the template and the mapping alone.
pub uninterp spec fn render_of(template: Seq<char>, vars: Map<Seq<char>, Seq<char>>) -> Option<
    Seq<char>,
>;

/// Relies on `handlebars::Handlebars::render_template` with
/// `set_strict_mode(true)`: rendering is deterministic in the template text
/// and the variable mapping handed to it.
#[verifier::external_body]
fn render_strict(template: &str, vars: &ResolvedVariables) -> (r: Option<String>)
    ensures
        match r {
            Some(s) => render_of(template@, vars@) == Some(s@),
            None => render_of(template@, vars@) is None,
        },
{
    let data: std::collections::HashMap<&str, &str> = vars.pairs.iter().map(
        |p| (p.0.as_str(), p.1.as_str()),
    ).collect();
    let mut registry = handlebars::Handlebars::new();
    registry.set_strict_mode(true);
    registry.render_template(template, &data).ok()
}

/// A successfully composed header: the full output filename (base name plus
/// resolved extension), the final text (rendered, possibly shebang-prefixed),
/// and whether the degraded shebang-default case warned.
pub struct ComposedHeader {
    pub filename: String,
    pub text: String,
    pub warning: bool,
}

/// The whole run's decision: which language entry applies, which extension,
/// which variables, what strict-mode rendering yields for them, and what the
/// shebang policy makes of the result. Each stage's failure aborts the run
/// with its own error, in this fixed order. `date` is the formatted date
/// text, or `None` when the configured date format cannot produce one; that
/// failure (`ConfigMalformed`) surfaces at the variables stage, where the
/// date is computed — after the language, extension and template checks.
pub open spec fn spec_compose(
    table: Seq<LangConfig>,
    keywords: Map<Seq<char>, Seq<char>>,
    shebang_by_default: bool,
    template: Seq<char>,
    filename: Seq<char>,
    language: Seq<char>,
    filetype: Seq<char>,
    explicit_shebang: bool,
    date: Option<Seq<char>>,
) -> Result<(Seq<char>, Seq<char>, bool), HgenError> {
    match lang_lookup(table, language) {
        None => Err(HgenError::LanguageNotFound),
        Some(lc) => {
            let ext_map = assoc_map(lc.file_extension@);
            if !ext_map.contains_key(filetype) {
                Err(HgenError::UnknownFileType)
            } else {
                let full_name = filename + ext_map[filetype];
                if !template_ok(template) {
                    Err(HgenError::TemplateSyntaxError)
                } else {
                    match date {
                        None => Err(HgenError::ConfigMalformed),
                        Some(d) => {
                            let vars = predefined_map(
                                d,
                                lc.line_comment@,
                                full_name,
                                language,
                            ).union_prefer_right(keywords);
                            match render_of(template, vars) {
                                None => Err(HgenError::UndefinedVariable),
                                Some(rendered) => match shebang_outcome(
                                    rendered,
                                    lc.shebang.deep_view(),
                                    explicit_shebang,
                                    shebang_by_default,
                                ) {
                                    Ok(p) => Ok((full_name, p.0, p.1)),
                                    Err(e) => Err(e),
                                },
                            }
                        },
                    }
                }
            }
        },
    }
}

/// The composing pipeline, with the formatted date — or its absence, when
/// the configured date format cannot produce one — supplied by the caller.
/// Returns exactly what `spec_compose` says for these inputs, in its stage
/// order; any stage's failure aborts the whole run, and no header is
/// produced beside an error.
fn compose_pipeline(
    table: &Vec<LangConfig>,
    gen: &GenConfig,
    template: &String,
    cli: &Cli,
    date: &Option<String>,
) -> (r: Result<ComposedHeader, HgenError>)
    ensures
        ({
            let outcome = spec_compose(
                table@,
                assoc_map(gen.keywords@),
                gen.shebang_by_default,
                template@,
                cli.filename@,
                cli.language@,
                cli.filetype@,
                cli.shebang,
                date.deep_view(),
            );
            match r {
                Ok(h) => outcome == Ok::<(Seq<char>, Seq<char>, bool), HgenError>(
                    (h.filename@, h.text@, h.warning),
                ),
                Err(e) => outcome == Err::<(Seq<char>, Seq<char>, bool), HgenError>(e),
            }
        }),
{
    let lang_config = match select_language(table, &cli.language) {
        Ok(c) => c,
        Err(e) => {
            return Err(e);
        },
    };
    let ext = match lookup_extension(lang_config, &cli.filetype) {
        Ok(ext) => ext,
        Err(e) => {
            return Err(e);
        },
    };
    let mut full_name = cli.filename.clone();
    full_name.append(ext.as_str());
    if !template_compiles(template.as_str()) {
        return Err(HgenError::TemplateSyntaxError);
    }
    let date = match date {
        Some(d) => d,
        None => {
            return Err(HgenError::ConfigMalformed);
        },
    };
    let vars = build_variables(lang_config, &gen.keywords, &full_name, &cli.language, date);
    let rendered = match render_strict(template.as_str(), &vars) {
        Some(s) => s,
        None => {
            return Err(HgenError::UndefinedVariable);
        },
    };
    match apply_shebang(rendered, &lang_config.shebang, cli.shebang, gen.shebang_by_default) {
        Ok(p) => Ok(ComposedHeader { filename: full_name, text: p.0, warning: p.1 }),
        Err(e) => Err(e),
    }
}

/// HeaderComposer, with the formatted date supplied by the caller: resolves
/// the language entry, the extension and the variables, renders in strict
/// mode, and applies the shebang policy. Returns exactly what `spec_compose`
/// says for these inputs.
pub fn compose_header_with_date(
    table: &Vec<LangConfig>,
    gen: &GenConfig,
    template: &String,
    cli: &Cli,
    date: &String,
) -> (r: Result<ComposedHeader, HgenError>)
    ensures
        ({
            let outcome = spec_compose(
                table@,
                assoc_map(gen.keywords@),
                gen.shebang_by_default,
                template@,
                cli.filename@,
                cli.language@,
                cli.filetype@,
                cli.shebang,
                Some(date@),
            );
            match r {
                Ok(h) => outcome == Ok::<(Seq<char>, Seq<char>, bool), HgenError>(
                    (h.filename@, h.text@, h.warning),
                ),
                Err(e) => outcome == Err::<(Seq<char>, Seq<char>, bool), HgenError>(e),
            }
        }),
{
    let owned_date = Some(date.clone());
    proof {
        assert(owned_date.deep_view() == Some(date@));
    }
    compose_pipeline(table, gen, template, cli, &owned_date)
}

/// HeaderComposer: formats the current date with the configured date format
/// and composes the header, in `spec_compose`'s stage order. A date format
/// that chrono cannot format an instant with counts as malformed settings
/// (`ConfigMalformed`), surfacing at the variables stage — the language,
/// extension and template failures come first, whatever the format. With an
/// accepted format, the result is what `spec_compose` says for the date text
/// the clock produced.
pub fn compose_header(table: &Vec<LangConfig>, gen: &GenConfig, template: &String, cli: &Cli) -> (r:
    Result<ComposedHeader, HgenError>)
    ensures
        ({
            match r {
                Ok(h) => strftime_valid(gen.date_format@) && (exists|date: Seq<char>|
                    spec_compose(
                        table@,
                        assoc_map(gen.keywords@),
                        gen.shebang_by_default,
                        template@,
                        cli.filename@,
                        cli.language@,
                        cli.filetype@,
                        cli.shebang,
                        Some(date),
                    ) == Ok::<(Seq<char>, Seq<char>, bool), HgenError>(
                        (h.filename@, h.text@, h.warning),
                    )),
                Err(e) => (if strftime_valid(gen.date_format@) {
                    exists|date: Seq<char>|
                        spec_compose(
                            table@,
                            assoc_map(gen.keywords@),
                            gen.shebang_by_default,
                            template@,
                            cli.filename@,
                            cli.language@,
                            cli.filetype@,
                            cli.shebang,
                            Some(date),
                        ) == Err::<(Seq<char>, Seq<char>, bool), HgenError>(e)
                } else {
                    spec_compose(
                        table@,
                        assoc_map(gen.keywords@),
                        gen.shebang_by_default,
                        template@,
                        cli.filename@,
                        cli.language@,
                        cli.filetype@,
                        cli.shebang,
                        None,
                    ) == Err::<(Seq<char>, Seq<char>, bool), HgenError>(e)
                }),
            }
        }),
{
    let date: Option<String> = if strftime_ok(gen.date_format.as_str()) {
        Some(format_current_date(gen.date_format.as_str()))
    } else {
        None
    };
    let r = compose_pipeline(table, gen, template, cli, &date);
    proof {
        match &date {
            Some(d0) => {
                let d = d0@;
                match &r {
                    Ok(h) => {
                        assert(spec_compose(
                            table@,
                            assoc_map(gen.keywords@),
                            gen.shebang_by_default,
                            template@,
                            cli.filename@,
                            cli.language@,
                            cli.filetype@,
                            cli.shebang,
                            Some(d),
                        ) == Ok::<(Seq<char>, Seq<char>, bool), HgenError>(
                            (h.filename@, h.text@, h.warning),
                        ));
                    },
                    Err(e) => {
                        assert(spec_compose(
                            table@,
                            assoc_map(gen.keywords@),
                            gen.shebang_by_default,
                            template@,
                            cli.filename@,
                            cli.language@,
                            cli.filetype@,
                            cli.shebang,
                            Some(d),
                        ) == Err::<(Seq<char>, Seq<char>, bool), HgenError>(*e));
                    },
                }
            },
            None => {
                assert(r is Err);
            },
        }
    }
    r
}

/// Law: a request for a language with no matching table entry fails with
/// `LanguageNotFound`, whatever the rest of the input is; no header is
/// composed beside the error, so nothing is ever written.
pub proof fn lemma_unmatched_language_fails(
    table: Seq<LangConfig>,
    keywords: Map<Seq<char>, Seq<char>>,
    shebang_by_default: bool,
    template: Seq<char>,
    filename: Seq<char>,
    language: Seq<char>,
    filetype: Seq<char>,
    explicit_shebang: bool,
    date: Option<Seq<char>>,
)
    requires
        forall|i: int| 0 <= i < table.len() ==> table[i].language@ != language,
    ensures
        spec_compose(
            table,
            keywords,
            shebang_by_default,
            template,
            filename,
            language,
            filetype,
            explicit_shebang,
            date,
        ) == Err::<(Seq<char>, Seq<char>, bool), HgenError>(HgenError::LanguageNotFound),
{
    lemma_lang_lookup_characterization(table, language);
    if lang_lookup(table, language) is Some {
        let lc = lang_lookup(table, language)->Some_0;
        let i = choose|i: int| 0 <= i < table.len() && table[i] == lc;
        assert(table[i].language@ == language);
    }
}

} // verus!
