use portfolio_vault::{
    key_statement, list_portfolios, portfolio_file_name, portfolio_name, verification_statement,
};

fn names(files: &[&str]) -> Vec<String> {
    files.iter().map(|f| f.to_string()).collect()
}

#[test]
fn file_name_is_name_and_suffix() {
    assert_eq!(portfolio_file_name("retirement"), "retirement.sqlite");
    assert_eq!(portfolio_file_name("test_portfolio"), "test_portfolio.sqlite");
    assert_eq!(portfolio_file_name(""), ".sqlite");
    assert_eq!(portfolio_file_name("a.b"), "a.b.sqlite");
    assert_eq!(portfolio_file_name("d\u{e9}p\u{f4}t"), "d\u{e9}p\u{f4}t.sqlite");
}

#[test]
fn key_statement_quotes_the_password() {
    assert_eq!(key_statement("password123"), "PRAGMA key = 'password123';");
    assert_eq!(key_statement(""), "PRAGMA key = '';");
    assert_eq!(key_statement("p w"), "PRAGMA key = 'p w';");
}

#[test]
fn verification_statement_reads_the_schema_table() {
    assert_eq!(verification_statement(), "SELECT count(*) FROM sqlite_master");
}

#[test]
fn portfolio_name_is_what_stands_before_the_suffix() {
    assert_eq!(portfolio_name("retirement.sqlite"), Some("retirement".to_string()));
    assert_eq!(portfolio_name("a.b.sqlite"), Some("a.b".to_string()));
    assert_eq!(portfolio_name("x..sqlite"), Some("x.".to_string()));
    assert_eq!(portfolio_name("d\u{e9}p\u{f4}t.sqlite"), Some("d\u{e9}p\u{f4}t".to_string()));
    assert_eq!(portfolio_name("a.sqlite"), Some("a".to_string()));
}

#[test]
fn other_files_hold_no_portfolio() {
    assert_eq!(portfolio_name(".sqlite"), None);
    assert_eq!(portfolio_name("sqlite"), None);
    assert_eq!(portfolio_name(""), None);
    assert_eq!(portfolio_name("notes.txt"), None);
    assert_eq!(portfolio_name("a.sqlite.bak"), None);
    assert_eq!(portfolio_name("a.SQLITE"), None);
    assert_eq!(portfolio_name("a.sqlite3"), None);
    assert_eq!(portfolio_name("asqlite"), None);
    assert_eq!(portfolio_name("a.sqlite-journal"), None);
}

#[test]
fn portfolio_name_agrees_with_the_path_rules_of_std() {
    for file in [
        "retirement.sqlite", ".sqlite", "a.b.sqlite", "x..sqlite", "notes.txt", "a.sqlite.bak",
        "sqlite", "..sqlite", "a.SQLITE", "plain",
    ] {
        let path = std::path::Path::new(file);
        let expected = if path.extension().map_or(false, |e| e == "sqlite") {
            path.file_stem().map(|s| s.to_string_lossy().to_string())
        } else {
            None
        };
        assert_eq!(portfolio_name(file), expected);
    }
}

#[test]
fn listing_keeps_the_order_of_the_files() {
    let files = names(&["b.sqlite", "notes.txt", "a.sqlite", ".sqlite", "c.sqlite.bak", "c.sqlite"]);
    assert_eq!(list_portfolios(Some(files)), names(&["b", "a", "c"]));
}

#[test]
fn listing_of_an_empty_or_missing_directory_is_empty() {
    assert_eq!(list_portfolios(Some(Vec::new())), Vec::<String>::new());
    assert_eq!(list_portfolios(None), Vec::<String>::new());
}

#[test]
fn listing_shows_a_name_while_its_file_is_there() {
    let file = portfolio_file_name("retirement");
    assert_eq!(list_portfolios(Some(vec![file])), names(&["retirement"]));
    assert_eq!(list_portfolios(Some(names(&["other.sqlite"]))), names(&["other"]));
}
