use slack_todo::flow::{
    lookup_result, CreateFlow, Effect, Event, Failure, InteractionFlow, ListFlow, LIST_LIMIT,
};
use slack_todo::payloads::{
    SlackCommand, SlackInteractionData, SlackInteractionTeam, SlackInteractionUser,
    SlackInteractionView,
};
use slack_todo::records::{Action, ActionType, Todo};
use slack_todo::template::{TemplateError, TemplateStore};

const CREATED: &str = "{\"blocks\": [{\"type\": \"section\", \"text\": \"Created {{title}}: {{desc}}\"}]}";
const LIST: &str = "{\"blocks\": [{\"type\": \"header\", \"text\": \"{{user}}\"}, {{list}}]}";
const TODO: &str = "{\"type\": \"section\", \"text\": \"{{title}} - {{desc}}\"}";
const MODAL: &str = "{\"type\": \"modal\", \"private_metadata\": \"{{initial_channel}}\"}";

fn store() -> TemplateStore {
    let mut s = TemplateStore::new();
    s.add_block("created".to_string(), CREATED.to_string());
    s.add_block("list".to_string(), LIST.to_string());
    s.add_block("todo".to_string(), TODO.to_string());
    s.add_modal("create".to_string(), MODAL.to_string());
    s
}

fn command(text: &str) -> SlackCommand {
    SlackCommand {
        team_id: "T0".to_string(),
        team_domain: "acme".to_string(),
        channel_id: "C1".to_string(),
        user_id: "U1".to_string(),
        user_name: "ann".to_string(),
        command: "/todo".to_string(),
        text: text.to_string(),
        response_url: "https://hooks.example/r1".to_string(),
        trigger_id: "TR1".to_string(),
        api_app_id: "A1".to_string(),
    }
}

fn todo(title: &str, description: Option<&str>) -> Todo {
    Todo {
        id: 1,
        title: title.to_string(),
        description: description.map(|d| d.to_string()),
        completed: false,
        slack_user: "U2".to_string(),
    }
}

fn submission(kind: &str, title: Option<&str>, description: Option<&str>) -> SlackInteractionData {
    SlackInteractionData {
        kind: kind.to_string(),
        user: SlackInteractionUser {
            username: "bob".to_string(),
            name: "Bob".to_string(),
            id: "U9".to_string(),
            team_id: "T0".to_string(),
        },
        team: SlackInteractionTeam { domain: "acme".to_string(), id: "T0".to_string() },
        api_app_id: "A1".to_string(),
        trigger_id: "TR2".to_string(),
        token: "tok".to_string(),
        view: SlackInteractionView {
            id: "V1".to_string(),
            kind: "modal".to_string(),
            team_id: "T0".to_string(),
            private_metadata: "C1".to_string(),
            callback_id: "cb".to_string(),
            title: title.map(|t| t.to_string()),
            description: description.map(|d| d.to_string()),
        },
    }
}

fn pending_action() -> Action {
    Action {
        id: 77,
        slack_id: "V1".to_string(),
        slack_user: "U1".to_string(),
        slack_channel: "C5".to_string(),
        kind: ActionType::CreateModal,
    }
}

fn is_finish_ok(e: &Effect) -> bool {
    matches!(e, Effect::Finish(Ok(())))
}

fn finish_err(e: &Effect) -> Option<Failure> {
    match e {
        Effect::Finish(Err(f)) => Some(*f),
        _ => None,
    }
}

#[test]
fn blank_create_opens_modal_and_stores_pending_action() {
    let s = store();
    let (flow, eff) = CreateFlow::start(&command("   "), &s);
    match &eff {
        Effect::OpenModal(m) => {
            assert_eq!(m.trigger, "TR1");
            assert_eq!(m.data, "{\"type\": \"modal\", \"private_metadata\": \"C1\"}");
        }
        _ => panic!("expected a dialog"),
    }
    let (flow, eff) = flow.step(Event::ModalOpened(Some("V7".to_string())), &s);
    match &eff {
        Effect::InsertAction(a) => {
            assert_eq!(a.slack_id, "V7");
            assert_eq!(a.slack_user, "U1");
            assert_eq!(a.slack_channel, "C1");
            assert_eq!(a.kind, ActionType::CreateModal);
        }
        _ => panic!("expected a pending action"),
    }
    let (flow, eff) = flow.step(Event::Done, &s);
    assert!(is_finish_ok(&eff));
    let (_, eff) = flow.step(Event::Done, &s);
    assert_eq!(finish_err(&eff), Some(Failure::Unexpected));
}

#[test]
fn empty_create_text_opens_modal() {
    let (_, eff) = CreateFlow::start(&command(""), &store());
    assert!(matches!(eff, Effect::OpenModal(_)));
}

#[test]
fn create_modal_without_view_id_stops() {
    let s = store();
    let (flow, _) = CreateFlow::start(&command(""), &s);
    let (_, eff) = flow.step(Event::ModalOpened(None), &s);
    assert_eq!(finish_err(&eff), Some(Failure::MalformedInput));
}

#[test]
fn create_modal_failure_stops() {
    let s = store();
    let (flow, _) = CreateFlow::start(&command(""), &s);
    let (_, eff) = flow.step(Event::Failed(Failure::Platform), &s);
    assert_eq!(finish_err(&eff), Some(Failure::Platform));
}

#[test]
fn create_without_modal_template_stops() {
    let (_, eff) = CreateFlow::start(&command(""), &TemplateStore::new());
    assert_eq!(finish_err(&eff), Some(Failure::Template(TemplateError::NotFound)));
}

#[test]
fn direct_create_inserts_one_record_and_posts_webhook() {
    let s = store();
    let (flow, eff) = CreateFlow::start(&command("Buy milk"), &s);
    let mut inserts = 0;
    let mut webhooks = 0;
    match &eff {
        Effect::InsertTodo(t) => {
            inserts += 1;
            assert_eq!(t.title, "Buy milk");
            assert!(t.description.is_none());
            assert!(!t.completed);
            assert_eq!(t.slack_user, "U1");
        }
        _ => panic!("expected a record"),
    }
    let (flow, eff) = flow.step(Event::Done, &s);
    match &eff {
        Effect::PostWebhook { url, blocks, ephemeral } => {
            webhooks += 1;
            assert_eq!(url, "https://hooks.example/r1");
            assert!(*ephemeral);
            assert_eq!(
                blocks,
                "{\"blocks\": [{\"type\": \"section\", \"text\": \"Created Buy milk: \"}]}"
            );
        }
        _ => panic!("expected a webhook post"),
    }
    let (_, eff) = flow.step(Event::Done, &s);
    assert!(is_finish_ok(&eff));
    assert_eq!(inserts, 1);
    assert_eq!(webhooks, 1);
}

#[test]
fn direct_create_storage_failure_stops() {
    let s = store();
    let (flow, _) = CreateFlow::start(&command("Buy milk"), &s);
    let (_, eff) = flow.step(Event::Failed(Failure::Storage), &s);
    assert_eq!(finish_err(&eff), Some(Failure::Storage));
}

#[test]
fn direct_create_without_created_template_stops() {
    let mut s = TemplateStore::new();
    s.add_modal("create".to_string(), MODAL.to_string());
    let (flow, _) = CreateFlow::start(&command("x"), &s);
    let (_, eff) = flow.step(Event::Done, &s);
    assert_eq!(finish_err(&eff), Some(Failure::Template(TemplateError::NotFound)));
}

#[test]
fn create_unexpected_event() {
    let s = store();
    let (flow, _) = CreateFlow::start(&command("x"), &s);
    let (_, eff) = flow.step(Event::TodosFound(Vec::new()), &s);
    assert_eq!(finish_err(&eff), Some(Failure::Unexpected));
}

#[test]
fn list_of_own_records_fetches_invoking_user() {
    let (_, eff) = ListFlow::start(&command(""));
    match eff {
        Effect::FetchTodos { owner, limit } => {
            assert_eq!(owner, "U1");
            assert_eq!(limit, LIST_LIMIT);
            assert_eq!(limit, 5);
        }
        _ => panic!("expected a fetch"),
    }
}

#[test]
fn list_of_mentioned_user_fetches_that_user() {
    let (_, eff) = ListFlow::start(&command("<@U123|Alice>"));
    match eff {
        Effect::FetchTodos { owner, .. } => assert_eq!(owner, "U123"),
        _ => panic!("expected a fetch"),
    }
}

#[test]
fn list_with_malformed_mention_stops() {
    let (_, eff) = ListFlow::start(&command("Alice"));
    assert_eq!(finish_err(&eff), Some(Failure::MalformedInput));
}

#[test]
fn list_with_no_records_posts_plain_message() {
    let s = store();
    let (flow, _) = ListFlow::start(&command("<@U123|Alice>"));
    let (flow, eff) = flow.step(Event::TodosFound(Vec::new()), &s);
    match &eff {
        Effect::PostMessage { text, channel } => {
            assert_eq!(text, "No todos found for <@Alice>");
            assert_eq!(channel, "C1");
        }
        _ => panic!("expected a plain message"),
    }
    let (_, eff) = flow.step(Event::Done, &s);
    assert!(is_finish_ok(&eff));
}

#[test]
fn list_with_records_posts_one_blocks_message() {
    let s = store();
    let (flow, _) = ListFlow::start(&command(""));
    let found = vec![todo("Milk", None), todo("Eggs", Some("a dozen"))];
    let (flow, eff) = flow.step(Event::TodosFound(found), &s);
    match &eff {
        Effect::PostBlocks { channel, blocks } => {
            assert_eq!(channel, "C1");
            assert_eq!(
                blocks,
                "[{\"text\":\"ann\",\"type\":\"header\"},\
                 {\"text\":\"Milk - _No Description_\",\"type\":\"section\"},\
                 {\"text\":\"Eggs - a dozen\",\"type\":\"section\"}]"
            );
        }
        _ => panic!("expected a blocks message"),
    }
    let (_, eff) = flow.step(Event::Done, &s);
    assert!(is_finish_ok(&eff));
}

#[test]
fn list_with_five_records_lists_all() {
    let s = store();
    let (flow, _) = ListFlow::start(&command(""));
    let found: Vec<Todo> = (0..5).map(|i| todo(&format!("T{}", i), None)).collect();
    let (_, eff) = flow.step(Event::TodosFound(found), &s);
    match &eff {
        Effect::PostBlocks { blocks, .. } => {
            for i in 0..5 {
                assert!(blocks.contains(&format!("T{} - _No Description_", i)));
            }
        }
        _ => panic!("expected a blocks message"),
    }
}

#[test]
fn list_with_invalid_document_stops() {
    let mut s = TemplateStore::new();
    s.add_block("todo".to_string(), "{\"text\": \"{{title}}\"}".to_string());
    s.add_block("list".to_string(), "{\"blocks\": [{{list}}]".to_string());
    let (flow, _) = ListFlow::start(&command(""));
    let (_, eff) = flow.step(Event::TodosFound(vec![todo("Milk", None)]), &s);
    assert_eq!(finish_err(&eff), Some(Failure::Template(TemplateError::InvalidFormat)));
}

#[test]
fn list_without_entry_template_stops() {
    let mut s = TemplateStore::new();
    s.add_block("list".to_string(), LIST.to_string());
    let (flow, _) = ListFlow::start(&command(""));
    let (_, eff) = flow.step(Event::TodosFound(vec![todo("Milk", None)]), &s);
    assert_eq!(finish_err(&eff), Some(Failure::Template(TemplateError::NotFound)));
}

#[test]
fn list_fetch_failure_stops() {
    let (flow, _) = ListFlow::start(&command(""));
    let (_, eff) = flow.step(Event::Failed(Failure::Storage), &store());
    assert_eq!(finish_err(&eff), Some(Failure::Storage));
}

#[test]
fn other_interactions_are_ignored() {
    let (_, eff) = InteractionFlow::start(&submission("block_actions", Some("x"), None));
    assert!(is_finish_ok(&eff));
}

#[test]
fn unknown_correlation_id_is_not_found() {
    let s = store();
    let (flow, eff) = InteractionFlow::start(&submission("view_submission", Some("x"), None));
    match &eff {
        Effect::FetchAction(id) => assert_eq!(id, "V1"),
        _ => panic!("expected a lookup"),
    }
    let (flow, eff) = flow.step(Event::Failed(Failure::NotFound), &s);
    assert_eq!(finish_err(&eff), Some(Failure::NotFound));
    let (_, eff) = flow.step(Event::Done, &s);
    assert!(matches!(eff, Effect::Finish(Err(_))));
}

#[test]
fn submission_deletes_action_and_inserts_record() {
    let s = store();
    let (flow, _) = InteractionFlow::start(&submission(
        "view_submission",
        Some("Write report"),
        Some("by Friday"),
    ));
    let (flow, eff) = flow.step(Event::ActionFound(pending_action()), &s);
    match &eff {
        Effect::DeleteAction(a) => {
            assert_eq!(a.id, 77);
            assert_eq!(a.slack_id, "V1");
        }
        _ => panic!("expected a delete"),
    }
    let (flow, eff) = flow.step(Event::Done, &s);
    match &eff {
        Effect::InsertTodo(t) => {
            assert_eq!(t.title, "Write report");
            assert_eq!(t.description.as_deref(), Some("by Friday"));
            assert_eq!(t.slack_user, "U1");
            assert!(!t.completed);
        }
        _ => panic!("expected a record"),
    }
    let (flow, eff) = flow.step(Event::Done, &s);
    match &eff {
        Effect::PostEphemeral { blocks, channel, user } => {
            assert_eq!(
                blocks,
                "[{\"text\":\"Created Write report: by Friday\",\"type\":\"section\"}]"
            );
            assert_eq!(channel, "C5");
            assert_eq!(user, "U1");
        }
        _ => panic!("expected an ephemeral post"),
    }
    let (_, eff) = flow.step(Event::Done, &s);
    assert!(is_finish_ok(&eff));
}

#[test]
fn submission_without_title_stops_after_delete() {
    let s = store();
    let (flow, _) = InteractionFlow::start(&submission("view_submission", None, None));
    let (flow, eff) = flow.step(Event::ActionFound(pending_action()), &s);
    assert!(matches!(eff, Effect::DeleteAction(_)));
    let (_, eff) = flow.step(Event::Done, &s);
    assert_eq!(finish_err(&eff), Some(Failure::MalformedInput));
}

#[test]
fn submission_delete_failure_stops() {
    let s = store();
    let (flow, _) = InteractionFlow::start(&submission("view_submission", Some("x"), None));
    let (flow, _) = flow.step(Event::ActionFound(pending_action()), &s);
    let (_, eff) = flow.step(Event::Failed(Failure::Storage), &s);
    assert_eq!(finish_err(&eff), Some(Failure::Storage));
}

#[test]
fn submission_reply_failure_is_reported() {
    let s = store();
    let (flow, _) = InteractionFlow::start(&submission("view_submission", Some("x"), None));
    let (flow, _) = flow.step(Event::ActionFound(pending_action()), &s);
    let (flow, _) = flow.step(Event::Done, &s);
    let (flow, eff) = flow.step(Event::Done, &s);
    assert!(matches!(eff, Effect::PostEphemeral { .. }));
    let (_, eff) = flow.step(Event::Failed(Failure::Transport), &s);
    assert_eq!(finish_err(&eff), Some(Failure::Transport));
}

#[test]
fn lookup_of_no_rows_is_not_found() {
    assert!(matches!(lookup_result(Vec::new()), Event::Failed(Failure::NotFound)));
}

#[test]
fn lookup_of_one_row_finds_it() {
    match lookup_result(vec![pending_action()]) {
        Event::ActionFound(a) => assert_eq!(a.id, 77),
        _ => panic!("expected the action"),
    }
}

#[test]
fn lookup_of_several_rows_is_duplicate() {
    let r = lookup_result(vec![pending_action(), pending_action()]);
    assert!(matches!(r, Event::Failed(Failure::Duplicate)));
}
