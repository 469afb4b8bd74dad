use md_preview::cli::{parse_args, Invocation, USAGE, USAGE_EXIT_CODE};

#[test]
fn no_file_argument_asks_for_usage_and_exit_status_2() {
    let args = vec!["md_preview".to_string()];
    assert_eq!(
        parse_args(&args),
        Invocation::Usage { message: "Must supply file name".to_string(), code: 2 }
    );
    assert_eq!(USAGE, "Must supply file name");
    assert_eq!(USAGE_EXIT_CODE, 2);
}

#[test]
fn no_argument_at_all_asks_for_usage() {
    assert_eq!(
        parse_args(&Vec::new()),
        Invocation::Usage { message: "Must supply file name".to_string(), code: 2 }
    );
}

#[test]
fn file_argument_is_the_file_to_preview() {
    let args = vec!["md_preview".to_string(), "README.md".to_string()];
    assert_eq!(parse_args(&args), Invocation::Preview("README.md".to_string()));
}

#[test]
fn further_arguments_are_ignored() {
    let args = vec!["md_preview".to_string(), "a.md".to_string(), "b.md".to_string()];
    assert_eq!(parse_args(&args), Invocation::Preview("a.md".to_string()));
}
