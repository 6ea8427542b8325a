use slack_todo::chat::{envelope_ok, ephemeral_body, open_modal_body};

#[test]
fn ephemeral_body_layout() {
    assert_eq!(
        ephemeral_body("[1]", "C1", "U1"),
        "{\"blocks\": [1], \"channel\": \"C1\", \"user\": \"U1\"}"
    );
}

#[test]
fn open_modal_body_layout() {
    assert_eq!(
        open_modal_body("T1", "{\"type\": \"modal\"}"),
        "{\"trigger_id\": \"T1\", \"view\": {\"type\": \"modal\"}}"
    );
}

#[test]
fn envelope_requires_ok_true() {
    assert!(envelope_ok(Some(true)));
    assert!(!envelope_ok(Some(false)));
    assert!(!envelope_ok(None));
}
