use slack_todo::text::is_blank_text;
use slack_todo::template::{fill_text, SlackBlock, SlackModal, TemplateError, TemplateStore};

fn pairs(items: &[(&str, &str)]) -> Vec<(String, String)> {
    items.iter().map(|(k, v)| (k.to_string(), v.to_string())).collect()
}

fn store() -> TemplateStore {
    let mut s = TemplateStore::new();
    s.add_block("greeting".to_string(), "Hello {{name}}, {{name}}!".to_string());
    s.add_block(
        "list".to_string(),
        "{\"blocks\": [{\"type\": \"header\", \"text\": \"{{user}}\"}, {{list}}], \"other\": 1}"
            .to_string(),
    );
    s.add_modal("create".to_string(), "{\"channel\": \"{{initial_channel}}\"}".to_string());
    s
}

#[test]
fn fill_with_empty_mapping_keeps_document() {
    let doc = "{\"text\": \"{{title}} and {{desc}}\"}".to_string();
    assert_eq!(fill_text(&doc, &Vec::new()), doc);
}

#[test]
fn fill_with_absent_keys_keeps_document() {
    let doc = "{\"text\": \"{{title}}\"}".to_string();
    assert_eq!(fill_text(&doc, &pairs(&[("user", "x"), ("desc", "y")])), doc);
}

#[test]
fn fill_replaces_every_occurrence() {
    let doc = "{{a}}-{{a}}-{{a}}".to_string();
    assert_eq!(fill_text(&doc, &pairs(&[("a", "x")])), "x-x-x");
}

#[test]
fn fill_leaves_unknown_placeholders() {
    let doc = "{{a}} {{b}}".to_string();
    assert_eq!(fill_text(&doc, &pairs(&[("a", "1")])), "1 {{b}}");
}

#[test]
fn fill_applies_pairs_in_order() {
    let doc = "{{a}}".to_string();
    assert_eq!(fill_text(&doc, &pairs(&[("a", "{{b}}"), ("b", "2")])), "2");
    assert_eq!(fill_text(&doc, &pairs(&[("b", "2"), ("a", "{{b}}")])), "{{b}}");
}

#[test]
fn fill_scans_without_overlap() {
    let doc = "{{{{a}}}}".to_string();
    assert_eq!(fill_text(&doc, &pairs(&[("a", "a")])), "{{a}}");
}

#[test]
fn fill_handles_non_ascii_text() {
    let doc = "é {{k}} ü".to_string();
    assert_eq!(fill_text(&doc, &pairs(&[("k", "ß")])), "é ß ü");
}

#[test]
fn block_load_and_fill() {
    let mut b = SlackBlock::new("greeting".to_string());
    assert_eq!(b.load(&store()), Ok(()));
    b.fill(&pairs(&[("name", "Ann")]));
    assert_eq!(b.data, "Hello Ann, Ann!");
    assert_eq!(b.name, "greeting");
}

#[test]
fn block_load_missing_is_not_found() {
    let mut b = SlackBlock::new("absent".to_string());
    assert_eq!(b.load(&store()), Err(TemplateError::NotFound));
    assert_eq!(b.data, "");
}

#[test]
fn modal_load_and_fill() {
    let mut m = SlackModal::new("create".to_string(), "T1".to_string());
    assert_eq!(m.load(&store()), Ok(()));
    m.fill(&pairs(&[("initial_channel", "C9")]));
    assert_eq!(m.data, "{\"channel\": \"C9\"}");
    assert_eq!(m.trigger, "T1");
}

#[test]
fn modal_load_missing_is_not_found() {
    let mut m = SlackModal::new("greeting".to_string(), "T1".to_string());
    assert_eq!(m.load(&store()), Err(TemplateError::NotFound));
}

#[test]
fn first_template_of_a_name_wins() {
    let mut s = TemplateStore::new();
    s.add_block("x".to_string(), "one".to_string());
    s.add_block("x".to_string(), "two".to_string());
    let mut b = SlackBlock::new("x".to_string());
    assert_eq!(b.load(&s), Ok(()));
    assert_eq!(b.data, "one");
}

#[test]
fn trim_keeps_blocks_member() {
    let mut b = SlackBlock::new("x".to_string());
    b.data = "{\"blocks\": [1, 2], \"x\": 3}".to_string();
    assert_eq!(b.trim(), Ok(()));
    assert_eq!(b.data, "[1,2]");
}

#[test]
fn trim_of_invalid_json_is_invalid_format() {
    let mut b = SlackBlock::new("x".to_string());
    b.data = "{\"blocks\": [1, }".to_string();
    assert_eq!(b.trim(), Err(TemplateError::InvalidFormat));
    assert_eq!(b.data, "{\"blocks\": [1, }");
}

#[test]
fn extract_blocks_round_trips() {
    let mut b = SlackBlock::new("list".to_string());
    assert_eq!(b.load(&store()), Ok(()));
    b.fill(&pairs(&[("user", "Ann"), ("list", "{\"type\": \"divider\"}")]));
    assert_eq!(b.trim(), Ok(()));
    let first = b.data.clone();
    let mut again = SlackBlock::new("list".to_string());
    again.data = format!("{{\"blocks\": {}}}", first);
    assert_eq!(again.trim(), Ok(()));
    assert_eq!(again.data, first);
    assert_eq!(first, "[{\"text\":\"Ann\",\"type\":\"header\"},{\"type\":\"divider\"}]");
}

#[test]
fn blank_text_is_white_space_only() {
    assert!(is_blank_text(""));
    assert!(is_blank_text(" \t\n\u{3000}\u{a0}"));
    assert!(!is_blank_text("Buy milk"));
    assert!(!is_blank_text("  x  "));
}
