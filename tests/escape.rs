use slack_todo::escape::SlackEscape;

#[test]
fn mention_token_is_split() {
    let e = SlackEscape::parse("<@U123|Alice>").unwrap();
    assert_eq!(e.id, "U123");
    assert_eq!(e.display, "Alice");
}

#[test]
fn mention_without_bar_fails() {
    assert!(SlackEscape::parse("<@U123>").is_none());
}

#[test]
fn mention_without_brackets_fails() {
    assert!(SlackEscape::parse("U123|Alice").is_none());
    assert!(SlackEscape::parse("<@U123|Alice").is_none());
    assert!(SlackEscape::parse("@U123|Alice>").is_none());
    assert!(SlackEscape::parse("").is_none());
}

#[test]
fn mention_splits_on_first_bar() {
    let e = SlackEscape::parse("<@U1|A|B>").unwrap();
    assert_eq!(e.id, "U1");
    assert_eq!(e.display, "A|B");
}

#[test]
fn mention_from_owned_string() {
    let e = SlackEscape::from("<@W9|Bob Smith>".to_string());
    assert_eq!(e.id, "W9");
    assert_eq!(e.display, "Bob Smith");
}
