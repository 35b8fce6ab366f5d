use bdo_market_cache::token::{TokenOptions, TokenSource};

fn options(
    token: Option<&str>,
    token_var: Option<&str>,
    token_file: Option<&str>,
) -> TokenOptions {
    TokenOptions {
        token: token.map(|s| s.to_owned()),
        token_var: token_var.map(|s| s.to_owned()),
        token_file: token_file.map(|s| s.to_owned()),
    }
}

#[test]
fn direct_token_wins_over_everything() {
    let source = options(Some("abc"), Some("VAR"), Some("file.txt")).token_source();
    assert_eq!(source, TokenSource::Direct("abc".to_owned()));
}

#[test]
fn named_variable_wins_over_file() {
    let source = options(None, Some("VAR"), Some("file.txt")).token_source();
    assert_eq!(source, TokenSource::EnvVar("VAR".to_owned()));
}

#[test]
fn file_wins_over_default() {
    let source = options(None, None, Some("file.txt")).token_source();
    assert_eq!(source, TokenSource::File("file.txt".to_owned()));
}

#[test]
fn nothing_given_falls_back_to_default_variable() {
    let source = options(None, None, None).token_source();
    assert_eq!(source, TokenSource::DefaultEnv);
}
