use hgen::assoc::assoc_get;
use hgen::config::LangConfig;
use hgen::vars::build_variables;

#[test]
fn user_keyword_overrides_predefined_line_comment() {
    let lang = LangConfig {
        language: String::from("rust"),
        line_comment: String::from("//"),
        file_extension: vec![(String::from("source"), String::from(".rs"))],
        shebang: None,
    };
    let keywords = vec![(String::from("lc"), String::from("XX"))];
    let vars = build_variables(
        &lang,
        &keywords,
        &String::from("foo.rs"),
        &String::from("rust"),
        &String::from("2024"),
    );
    let got = assoc_get(&vars.pairs, &String::from("lc"));
    assert_eq!(got, Some(&String::from("XX")));
}

#[test]
fn predefined_variables_are_present() {
    let lang = LangConfig {
        language: String::from("c"),
        line_comment: String::from("/*"),
        file_extension: vec![(String::from("source"), String::from(".c"))],
        shebang: None,
    };
    let keywords: Vec<(String, String)> = Vec::new();
    let vars = build_variables(
        &lang,
        &keywords,
        &String::from("main.c"),
        &String::from("c"),
        &String::from("1999"),
    );
    assert_eq!(assoc_get(&vars.pairs, &String::from("date")), Some(&String::from("1999")));
    assert_eq!(assoc_get(&vars.pairs, &String::from("lc")), Some(&String::from("/*")));
    assert_eq!(assoc_get(&vars.pairs, &String::from("fn")), Some(&String::from("main.c")));
    assert_eq!(assoc_get(&vars.pairs, &String::from("lang")), Some(&String::from("c")));
    assert_eq!(assoc_get(&vars.pairs, &String::from("author")), None);
}

#[test]
fn later_duplicate_keyword_wins() {
    let lang = LangConfig {
        language: String::from("sh"),
        line_comment: String::from("#"),
        file_extension: vec![(String::from("source"), String::from(".sh"))],
        shebang: None,
    };
    let keywords = vec![
        (String::from("author"), String::from("first")),
        (String::from("author"), String::from("second")),
    ];
    let vars = build_variables(
        &lang,
        &keywords,
        &String::from("run.sh"),
        &String::from("sh"),
        &String::from("2024"),
    );
    assert_eq!(assoc_get(&vars.pairs, &String::from("author")), Some(&String::from("second")));
}
