use workbook::minigrep::search;
use workbook::minigrep::search_case_insensitive;
use workbook::minigrep::Config;

#[test]
fn one_result() {
    let query = "duct";
    let contents = "\
Rust:
safe, fast, productive.
Pick three.
Duct tape.";

    assert_eq!(vec!["safe, fast, productive."], search(query, contents));
}

#[test]
fn case_insensive() {
    let query = "rUsT";
    let contents = "\
Rust:
safe, fast, productive.
Pick three.
Trust me.";

    assert_eq!(
        vec!["Rust:", "Trust me."],
        search_case_insensitive(query, contents)
    );
}

#[test]
fn search_strips_carriage_returns_before_line_feeds() {
    let contents = "one\r\ntwo\n\nthree";
    assert_eq!(vec!["one", "three"], search("e", contents));
    assert_eq!(vec!["two"], search("tw", contents));
}

#[test]
fn config_needs_a_query() {
    let args = vec![String::from("prog")];
    assert_eq!(Err("Didn't get a query string"), Config::new(&args, false).map(|_| ()));
}

#[test]
fn config_needs_a_file_name() {
    let args = vec![String::from("prog"), String::from("needle")];
    assert_eq!(Err("Didn't get a file name"), Config::new(&args, false).map(|_| ()));
}

#[test]
fn config_reads_query_file_and_case() {
    let args = vec![
        String::from("prog"),
        String::from("needle"),
        String::from("haystack.txt"),
    ];
    let config = Config::new(&args, false).unwrap();
    assert_eq!("needle", config.query);
    assert_eq!("haystack.txt", config.filename);
    assert!(config.case_sensitive);

    let config = Config::new(&args, true).unwrap();
    assert!(!config.case_sensitive);

    let args = vec![
        String::from("prog"),
        String::from("needle"),
        String::from("haystack.txt"),
        String::from("use_case_insensitive_please"),
    ];
    let config = Config::new(&args, false).unwrap();
    assert!(!config.case_sensitive);
}
