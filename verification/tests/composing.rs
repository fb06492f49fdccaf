use hgen::cli::Cli;
use hgen::compose::compose_header;
use hgen::config::{GenConfig, LangConfig};
use hgen::errors::HgenError;
use hgen::shebang::apply_shebang;

fn rust_table() -> Vec<LangConfig> {
    vec![LangConfig {
        language: String::from("rust"),
        line_comment: String::from("//"),
        file_extension: vec![(String::from("source"), String::from(".rs"))],
        shebang: None,
    }]
}

fn plain_gen() -> GenConfig {
    GenConfig {
        keywords: vec![(String::from("author"), String::from("A"))],
        date_format: String::from("%Y"),
        shebang_by_default: false,
    }
}

fn request(filename: &str, language: &str, shebang: bool, filetype: &str) -> Cli {
    Cli {
        filename: String::from(filename),
        language: String::from(language),
        shebang,
        filetype: String::from(filetype),
        path: None,
    }
}

#[test]
fn end_to_end_rendered_header() {
    let table = rust_table();
    let gen = plain_gen();
    let cli = request("foo", "rust", false, "source");
    let template = String::from("{{date}} {{author}}");
    let header = compose_header(&table, &gen, &template, &cli).unwrap();
    let year = chrono::Utc::now().format("%Y").to_string();
    assert_eq!(header.filename, "foo.rs");
    assert_eq!(header.text, format!("{} A", year));
    assert!(!header.warning);
}

#[test]
fn predefined_variables_render() {
    let table = rust_table();
    let gen = plain_gen();
    let cli = request("foo", "rust", false, "source");
    let template = String::from("{{lc}} {{fn}} ({{lang}})");
    let header = compose_header(&table, &gen, &template, &cli).unwrap();
    assert_eq!(header.text, "// foo.rs (rust)");
}

#[test]
fn unmatched_language_fails_without_output() {
    let table = rust_table();
    let gen = plain_gen();
    let cli = request("foo", "haskell", false, "source");
    let template = String::from("{{date}}");
    let r = compose_header(&table, &gen, &template, &cli);
    assert!(matches!(r, Err(HgenError::LanguageNotFound)));
}

#[test]
fn language_match_is_case_sensitive() {
    let table = rust_table();
    let gen = plain_gen();
    let cli = request("foo", "Rust", false, "source");
    let template = String::from("{{date}}");
    let r = compose_header(&table, &gen, &template, &cli);
    assert!(matches!(r, Err(HgenError::LanguageNotFound)));
}

#[test]
fn unknown_file_type_fails() {
    let table = rust_table();
    let gen = plain_gen();
    let cli = request("foo", "rust", false, "header");
    let template = String::from("{{date}}");
    let r = compose_header(&table, &gen, &template, &cli);
    assert!(matches!(r, Err(HgenError::UnknownFileType)));
}

#[test]
fn malformed_template_fails() {
    let table = rust_table();
    let gen = plain_gen();
    let cli = request("foo", "rust", false, "source");
    let template = String::from("{{#if author}}unclosed");
    let r = compose_header(&table, &gen, &template, &cli);
    assert!(matches!(r, Err(HgenError::TemplateSyntaxError)));
}

#[test]
fn undefined_variable_fails_in_strict_mode() {
    let table = rust_table();
    let gen = plain_gen();
    let cli = request("foo", "rust", false, "source");
    let template = String::from("{{nonexistent}}");
    let r = compose_header(&table, &gen, &template, &cli);
    assert!(matches!(r, Err(HgenError::UndefinedVariable)));
}

#[test]
fn invalid_date_format_is_malformed_config() {
    let table = rust_table();
    let gen = GenConfig {
        keywords: Vec::new(),
        date_format: String::from("%!"),
        shebang_by_default: false,
    };
    let cli = request("foo", "rust", false, "source");
    let template = String::from("{{date}}");
    let r = compose_header(&table, &gen, &template, &cli);
    assert!(matches!(r, Err(HgenError::ConfigMalformed)));
}

#[test]
fn unmatched_language_beats_bad_date_format() {
    // The language stage comes before the date is formatted: an unmatched
    // language fails with its own error even when the date format is also
    // unusable.
    let table = rust_table();
    let gen = GenConfig {
        keywords: Vec::new(),
        date_format: String::from("%!"),
        shebang_by_default: false,
    };
    let cli = request("foo", "haskell", false, "source");
    let template = String::from("{{date}}");
    let r = compose_header(&table, &gen, &template, &cli);
    assert!(matches!(r, Err(HgenError::LanguageNotFound)));
}

#[test]
fn unknown_file_type_beats_bad_date_format() {
    let table = rust_table();
    let gen = GenConfig {
        keywords: Vec::new(),
        date_format: String::from("%!"),
        shebang_by_default: false,
    };
    let cli = request("foo", "rust", false, "header");
    let template = String::from("{{date}}");
    let r = compose_header(&table, &gen, &template, &cli);
    assert!(matches!(r, Err(HgenError::UnknownFileType)));
}

#[test]
fn malformed_template_beats_bad_date_format() {
    let table = rust_table();
    let gen = GenConfig {
        keywords: Vec::new(),
        date_format: String::from("%!"),
        shebang_by_default: false,
    };
    let cli = request("foo", "rust", false, "source");
    let template = String::from("{{#if author}}unclosed");
    let r = compose_header(&table, &gen, &template, &cli);
    assert!(matches!(r, Err(HgenError::TemplateSyntaxError)));
}

#[test]
fn parse_only_date_specifier_is_malformed_config() {
    // "%#z" parses (chrono keeps it for reading permissive offsets) but no
    // formatting arm exists for it, so a run with it cannot format a date.
    let table = rust_table();
    let gen = GenConfig {
        keywords: Vec::new(),
        date_format: String::from("%#z"),
        shebang_by_default: false,
    };
    let cli = request("foo", "rust", false, "source");
    let template = String::from("{{date}}");
    let r = compose_header(&table, &gen, &template, &cli);
    assert!(matches!(r, Err(HgenError::ConfigMalformed)));
}

#[test]
fn fractional_second_date_specifier_is_accepted() {
    // "%3f" also parses to an internal item, but this one formats fine, so
    // the run must not reject it.
    let table = rust_table();
    let gen = GenConfig {
        keywords: Vec::new(),
        date_format: String::from("%3f"),
        shebang_by_default: false,
    };
    let cli = request("foo", "rust", false, "source");
    let template = String::from("{{date}}");
    let header = compose_header(&table, &gen, &template, &cli).unwrap();
    assert_eq!(header.text.len(), 3);
    assert!(header.text.chars().all(|c| c.is_ascii_digit()));
}

#[test]
fn default_shebang_missing_warns_but_succeeds() {
    let table = rust_table();
    let gen = GenConfig {
        keywords: Vec::new(),
        date_format: String::from("%Y"),
        shebang_by_default: true,
    };
    let cli = request("foo", "rust", false, "source");
    let template = String::from("hello");
    let header = compose_header(&table, &gen, &template, &cli).unwrap();
    assert_eq!(header.text, "hello");
    assert!(header.warning);
}

#[test]
fn explicit_shebang_missing_fails() {
    let table = rust_table();
    let gen = plain_gen();
    let cli = request("foo", "rust", true, "source");
    let template = String::from("hello");
    let r = compose_header(&table, &gen, &template, &cli);
    assert!(matches!(r, Err(HgenError::ShebangUndefined)));
}

#[test]
fn configured_shebang_is_prepended() {
    let table = vec![LangConfig {
        language: String::from("python"),
        line_comment: String::from("#"),
        file_extension: vec![(String::from("source"), String::from(".py"))],
        shebang: Some(String::from("#!/usr/bin/env python3")),
    }];
    let gen = plain_gen();
    let cli = request("tool", "python", true, "source");
    let template = String::from("hello");
    let header = compose_header(&table, &gen, &template, &cli).unwrap();
    assert_eq!(header.filename, "tool.py");
    assert_eq!(header.text, "#!/usr/bin/env python3\n\nhello");
    assert!(!header.warning);
}

#[test]
fn default_shebang_prepended_without_explicit_request() {
    let table = vec![LangConfig {
        language: String::from("python"),
        line_comment: String::from("#"),
        file_extension: vec![(String::from("source"), String::from(".py"))],
        shebang: Some(String::from("#!/usr/bin/env python3")),
    }];
    let gen = GenConfig {
        keywords: Vec::new(),
        date_format: String::from("%Y"),
        shebang_by_default: true,
    };
    let cli = request("tool", "python", false, "source");
    let template = String::from("hello");
    let header = compose_header(&table, &gen, &template, &cli).unwrap();
    assert_eq!(header.text, "#!/usr/bin/env python3\n\nhello");
    assert!(!header.warning);
}

#[test]
fn file_type_defaults_to_source() {
    let built = hgen::cli::get_cli_arguments(
        String::from("foo"),
        String::from("rust"),
        false,
        None,
        None,
    );
    assert_eq!(built.filetype, "source");
    let explicit = hgen::cli::get_cli_arguments(
        String::from("foo"),
        String::from("rust"),
        false,
        Some(String::from("header")),
        Some(String::from("/tmp")),
    );
    assert_eq!(explicit.filetype, "header");
    assert_eq!(explicit.path, Some(String::from("/tmp")));
}

#[test]
fn shebang_policy_table_directly() {
    // Default disabled, no explicit request: unchanged, no warning.
    let r = apply_shebang(String::from("H"), &None, false, false).unwrap();
    assert_eq!(r.0, "H");
    assert!(!r.1);
    // Default disabled, shebang configured but not requested: still unchanged.
    let r = apply_shebang(String::from("H"), &Some(String::from("#!/bin/sh")), false, false)
        .unwrap();
    assert_eq!(r.0, "H");
    assert!(!r.1);
    // Explicit request with a configured shebang prepends it and a blank line.
    let r = apply_shebang(String::from("H"), &Some(String::from("#!/bin/sh")), true, false)
        .unwrap();
    assert_eq!(r.0, "#!/bin/sh\n\nH");
    assert!(!r.1);
}

#[test]
fn first_matching_table_entry_is_used() {
    let table = vec![
        LangConfig {
            language: String::from("rust"),
            line_comment: String::from("//"),
            file_extension: vec![(String::from("source"), String::from(".rs"))],
            shebang: None,
        },
        LangConfig {
            language: String::from("rust"),
            line_comment: String::from("!!"),
            file_extension: vec![(String::from("source"), String::from(".rs2"))],
            shebang: None,
        },
    ];
    let gen = plain_gen();
    let cli = request("foo", "rust", false, "source");
    let template = String::from("{{lc}}");
    let header = compose_header(&table, &gen, &template, &cli).unwrap();
    assert_eq!(header.filename, "foo.rs");
    assert_eq!(header.text, "//");
}
