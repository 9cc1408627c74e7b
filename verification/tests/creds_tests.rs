use sshscan::creds::{is_space, load_credentials, parse_credential_line, tokenize, Credential};

#[test]
fn tokenize_two_tokens() {
    let toks = tokenize("alice secret");
    assert_eq!(toks, vec!["alice".to_string(), "secret".to_string()]);
}

#[test]
fn tokenize_extra_whitespace() {
    let toks = tokenize("  alice \t secret  ");
    assert_eq!(toks, vec!["alice".to_string(), "secret".to_string()]);
}

#[test]
fn tokenize_empty_and_blank() {
    assert_eq!(tokenize(""), Vec::<String>::new());
    assert_eq!(tokenize(" \t \n "), Vec::<String>::new());
}

#[test]
fn tokenize_one_and_three() {
    assert_eq!(tokenize("bob"), vec!["bob".to_string()]);
    assert_eq!(
        tokenize("carol pw123 extra"),
        vec!["carol".to_string(), "pw123".to_string(), "extra".to_string()]
    );
}

#[test]
fn tokenize_unicode_whitespace() {
    // U+3000 (ideographic space) separates tokens just as ASCII space does.
    let toks = tokenize("a\u{3000}b");
    assert_eq!(toks, vec!["a".to_string(), "b".to_string()]);
}

#[test]
fn space_classification() {
    assert!(is_space(' '));
    assert!(is_space('\t'));
    assert!(is_space('\u{2003}'));
    assert!(!is_space('a'));
    assert!(!is_space(':'));
}

#[test]
fn parse_line_well_formed() {
    let c = parse_credential_line("root toor").unwrap();
    assert_eq!(c.user, "root");
    assert_eq!(c.pass, "toor");
}

#[test]
fn parse_line_malformed() {
    assert!(parse_credential_line("bob").is_none());
    assert!(parse_credential_line("carol pw123 extra").is_none());
    assert!(parse_credential_line("").is_none());
}

#[test]
fn working_set_drops_malformed_lines() {
    let lines = vec![
        "alice secret".to_string(),
        "bob".to_string(),
        "carol pw123 extra".to_string(),
    ];
    let creds = load_credentials(&lines);
    assert_eq!(creds.len(), 1);
    assert_eq!(creds[0].user, "alice");
    assert_eq!(creds[0].pass, "secret");
}

#[test]
fn working_set_keeps_order() {
    let lines = vec![
        "a 1".to_string(),
        "not a pair at all".to_string(),
        "b 2".to_string(),
        "".to_string(),
        "c 3".to_string(),
    ];
    let creds = load_credentials(&lines);
    let got: Vec<(String, String)> =
        creds.iter().map(|c| (c.user.clone(), c.pass.clone())).collect();
    assert_eq!(
        got,
        vec![
            ("a".to_string(), "1".to_string()),
            ("b".to_string(), "2".to_string()),
            ("c".to_string(), "3".to_string()),
        ]
    );
}

#[test]
fn duplicate_copies_fields() {
    let c = Credential { user: "u".to_string(), pass: "p".to_string() };
    let d = c.duplicate();
    assert_eq!(d.user, c.user);
    assert_eq!(d.pass, c.pass);
}
