use dnd_index::compiler::{compile, CompileError, SourceBook, SourceItem};
use dnd_index::directory::{build_directory, LanguageDirectory, LanguageEntry};
use dnd_index::langs_strs::{eng_strs, ita_strs};
use dnd_index::response::{help, list, lookup, respond};

fn book(name: &str, pages: &[&str]) -> SourceBook {
    SourceBook {
        name: name.to_string(),
        pages: pages.iter().map(|p| p.to_string()).collect(),
    }
}

fn item(name: &str, books: Vec<SourceBook>) -> SourceItem {
    SourceItem {
        name: name.to_string(),
        books,
    }
}

fn eng_entry() -> LanguageEntry {
    let records = vec![
        item("Dragon", vec![book("Monster Manual", &["88", "90"])]),
        item(
            "Dwarf",
            vec![
                book("Player's Handbook", &["18"]),
                book("Monster Manual", &["122"]),
            ],
        ),
        item("Elf", vec![book("Player's Handbook", &["21"])]),
    ];
    LanguageEntry {
        table: compile(records).ok().unwrap(),
        templates: eng_strs(),
    }
}

fn ita_entry() -> LanguageEntry {
    let records = vec![item("Drago", vec![book("Manuale dei Mostri", &["12"])])];
    LanguageEntry {
        table: compile(records).ok().unwrap(),
        templates: ita_strs(),
    }
}

fn directory() -> LanguageDirectory {
    LanguageDirectory {
        eng: eng_entry(),
        ita: ita_entry(),
    }
}

#[test]
fn compiled_lookup_formats_books_in_source_order() {
    let entry = eng_entry();
    let got = lookup("dragon", &entry).unwrap();
    assert_eq!(
        got,
        "Results for `dragon`\n\nMonster Manual ---> pages 88, 90\n"
    );
    let got = lookup("dwarf", &entry).unwrap();
    assert_eq!(
        got,
        "Results for `dwarf`\n\nPlayer's Handbook ---> pages 18\nMonster Manual ---> pages 122\n"
    );
}

#[test]
fn lookup_is_case_insensitive_on_the_query() {
    let entry = eng_entry();
    let got = lookup("DRAGON", &entry).unwrap();
    assert_eq!(
        got,
        "Results for `DRAGON`\n\nMonster Manual ---> pages 88, 90\n"
    );
}

#[test]
fn lookup_miss_embeds_the_item_verbatim() {
    let entry = eng_entry();
    let got = lookup("axe", &entry).unwrap();
    assert_eq!(
        got,
        "`axe` is not a valid item or not contained in our dictionary."
    );
}

#[test]
fn blank_lookup_is_a_no_op() {
    let entry = eng_entry();
    assert!(lookup("", &entry).is_none());
    assert!(lookup("   ", &entry).is_none());
}

#[test]
fn duplicate_names_fail_the_compile_case_insensitively() {
    let records = vec![
        item("Dragon", vec![book("Monster Manual", &["88"])]),
        item("dragon", vec![book("Monster Manual", &["90"])]),
    ];
    match compile(records) {
        Err(CompileError::DuplicateItem(name)) => assert_eq!(name, "dragon"),
        Ok(_) => panic!("a duplicate item must fail the compile"),
    }
}

#[test]
fn list_keeps_matches_and_drops_the_rest() {
    let got = list('d', &eng_entry());
    assert_eq!(got, "Items starting with `D`\n\ndragon\ndwarf");
}

#[test]
fn list_is_case_insensitive_on_the_letter() {
    let got = list('D', &eng_entry());
    assert_eq!(got, "Items starting with `D`\n\ndragon\ndwarf");
}

#[test]
fn list_without_matches_uses_the_empty_template() {
    let got = list('z', &eng_entry());
    assert_eq!(got, "Items starting with `Z`\n\nNo items found.");
}

#[test]
fn help_returns_the_language_template() {
    assert_eq!(help(&ita_entry()), ita_strs().help);
}

#[test]
fn respond_runs_the_lookup_path() {
    let dir = directory();
    assert_eq!(
        respond("/eng dragon", &dir).unwrap(),
        "Results for `dragon`\n\nMonster Manual ---> pages 88, 90\n"
    );
    assert_eq!(
        respond("/ita drago", &dir).unwrap(),
        "Risultati per `drago`\n\nManuale dei Mostri ---> pages 12\n"
    );
}

#[test]
fn respond_list_with_language_filters_that_table() {
    let dir = directory();
    assert_eq!(
        respond("/list d eng", &dir).unwrap(),
        "Items starting with `D`\n\ndragon\ndwarf"
    );
    assert_eq!(
        respond("/list d ita", &dir).unwrap(),
        "Elementi che iniziano per `D`\n\ndrago"
    );
}

#[test]
fn respond_list_defaults_to_english() {
    let dir = directory();
    assert_eq!(
        respond("/list D", &dir).unwrap(),
        "Items starting with `D`\n\ndragon\ndwarf"
    );
}

#[test]
fn respond_missing_argument_shows_that_languages_help() {
    let dir = directory();
    assert_eq!(respond("/eng", &dir).unwrap(), eng_strs().help);
    assert_eq!(respond("/ita", &dir).unwrap(), ita_strs().help);
}

#[test]
fn respond_help_resolves_the_language() {
    let dir = directory();
    assert_eq!(respond("/help", &dir).unwrap(), eng_strs().help);
    assert_eq!(respond("/help ita", &dir).unwrap(), ita_strs().help);
}

#[test]
fn build_directory_pairs_tables_with_templates() {
    let dir = build_directory(
        vec![item("Dragon", vec![book("Monster Manual", &["88", "90"])])],
        eng_strs(),
        vec![item("Drago", vec![book("Manuale dei Mostri", &["12"])])],
        ita_strs(),
    )
    .ok()
    .unwrap();
    assert_eq!(
        respond("/ita drago", &dir).unwrap(),
        "Risultati per `drago`\n\nManuale dei Mostri ---> pages 12\n"
    );
}

#[test]
fn build_directory_fails_on_a_duplicate_in_either_language() {
    let result = build_directory(
        vec![item("Dragon", vec![])],
        eng_strs(),
        vec![item("Drago", vec![]), item("DRAGO", vec![])],
        ita_strs(),
    );
    assert!(result.is_err());
}

#[test]
fn respond_suppresses_unknown_input_and_bad_help_codes() {
    let dir = directory();
    assert!(respond("hello", &dir).is_none());
    assert!(respond("/help klingon", &dir).is_none());
    assert!(respond("/eng ", &dir).is_none());
}
