use hello::grep::{search_case_insensitive, search_case_sensitive, Config};

#[test]
fn case_sensitive() {
    let query = "duct";
    let contents = "\
Rust:
safe, fast, productive.
Duct tape.";

    assert_eq!(vec!["safe, fast, productive."], search_case_sensitive(query, contents));
}

#[test]
fn case_insensitive() {
    let query = "rUsT";
    let contents = "\
Rust:
safe, fast, productuve.
Trust me.";

    assert_eq!(vec!["Rust:", "Trust me."], search_case_insensitive(&query, &contents));
}

#[test]
fn lines_end_at_newline_or_crlf() {
    let contents = "one\r\ntwo\nthree\n";
    assert_eq!(search_case_sensitive("", contents), vec!["one", "two", "three"]);
    assert_eq!(search_case_sensitive("t", contents), vec!["two", "three"]);
    assert_eq!(search_case_sensitive("x", ""), Vec::<&str>::new());
    assert_eq!(search_case_sensitive("", "\n"), vec![""]);
}

#[test]
fn case_sensitive_search_does_not_fold() {
    assert_eq!(search_case_sensitive("Rust", "rust\nRust\nRUST"), vec!["Rust"]);
    assert_eq!(search_case_insensitive("Rust", "rust\nRust\nRUST\nrest"), vec!["rust", "Rust", "RUST"]);
}

#[test]
fn build_reads_query_and_path() {
    let args = vec![String::from("minigrep"), String::from("to"), String::from("poem.txt")];
    let c = Config::build(&args, true).unwrap();
    assert_eq!(c.query, "to");
    assert_eq!(c.file_path, "poem.txt");
    assert!(c.ignore_case);
}

#[test]
fn build_reports_missing_arguments() {
    let none: Vec<String> = vec![];
    assert_eq!(Config::build(&none, false).err(), Some("Didn't get a query string"));
    let only_name = vec![String::from("minigrep")];
    assert_eq!(Config::build(&only_name, false).err(), Some("Didn't get a query string"));
    let no_path = vec![String::from("minigrep"), String::from("to")];
    assert_eq!(Config::build(&no_path, false).err(), Some("Didn't get a file path"));
}

#[test]
fn config_search_follows_ignore_case() {
    let contents = "Rust:\nTrust me.";
    let exact = Config { query: String::from("rust"), file_path: String::new(), ignore_case: false };
    assert_eq!(exact.search(contents), vec!["Trust me."]);
    let folded = Config { query: String::from("rust"), file_path: String::new(), ignore_case: true };
    assert_eq!(folded.search(contents), vec!["Rust:", "Trust me."]);
}
