use emergence::resolve_token;

#[test]
fn env_token_wins_over_tokenfile() {
    let r = resolve_token(Some(String::from("TESTTOKEN")), Some(String::from("filetoken\n")));
    assert_eq!(r.unwrap(), "TESTTOKEN");
}

#[test]
fn tokenfile_is_used_when_env_is_absent() {
    let r = resolve_token(None, Some(String::from("filetoken\n")));
    assert_eq!(r.unwrap(), "filetoken");
}

#[test]
fn tokenfile_trailing_whitespace_is_trimmed() {
    assert_eq!(resolve_token(None, Some(String::from("tok en \r\n\t "))).unwrap(), "tok en");
    assert_eq!(resolve_token(None, Some(String::from(" \n"))).unwrap(), "");
    assert_eq!(resolve_token(None, Some(String::from("abc"))).unwrap(), "abc");
}

#[test]
fn tokenfile_with_non_ascii_content_keeps_its_text() {
    assert_eq!(resolve_token(None, Some(String::from("h\u{e9}llo\n"))).unwrap(), "h\u{e9}llo");
}

#[test]
fn tokenfile_trimming_matches_unicode_whitespace() {
    // trailing no-break space and ideographic space are whitespace too
    let r = resolve_token(None, Some(String::from("tok\u{a0}en\u{a0}\u{3000}\n")));
    assert_eq!(r.unwrap(), "tok\u{a0}en");
    assert_eq!("tok\u{a0}en\u{a0}\u{3000}\n".trim_end(), "tok\u{a0}en");
}

#[test]
fn no_source_yields_no_token() {
    assert!(resolve_token(None, None).is_none());
}
