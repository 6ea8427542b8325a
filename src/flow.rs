use vstd::prelude::*;

use crate::escape::{parse_mention, SlackEscape};
use crate::payloads::{SlackCommand, SlackInteractionData};
use crate::records::{
    clone_text,
    is_v4,
    text_or,
    todo_args,
    Action,
    ActionType,
    ActionView,
    Todo,
    TodoView,
};
use crate::template::{
    blocks_member,
    fill_all,
    lookup,
    SlackBlock,
    SlackModal,
    TemplateError,
    TemplateStore,
};
use crate::text::{all_white_space, is_blank_text, join, join_push};

verus! {

/// How many records a list command shows at most.
pub const LIST_LIMIT: usize = 5;

/// Why handling a request stopped early.
#[derive(Debug, Clone, Copy, PartialEq, Eq, Structural)]
pub enum Failure {
    /// The chat platform could not be reached.
    Transport,
    /// The chat platform answered with `ok` false.
    Platform,
    /// The store refused a write or could not be reached.
    Storage,
    /// No pending action has the submitted dialog's identifier.
    NotFound,
    /// More than one pending action has the submitted dialog's identifier.
    Duplicate,
    /// An input or a response lacks what it must hold.
    MalformedInput,
    /// A template is missing, or not JSON where its structure is needed.
    Template(TemplateError),
    /// An event that the current step does not wait for.
    Unexpected,
}

/// What the handler asks to be done next; `Finish` ends the request.
pub enum Effect {
    /// Open the dialog; answer with `ModalOpened`.
    OpenModal(SlackModal),
    /// Store the pending action; answer with `Done`.
    InsertAction(Action),
    /// Store the record; answer with `Done`.
    InsertTodo(Todo),
    /// Look up the pending action of this dialog; answer with `ActionFound`.
    FetchAction(String),
    /// Delete the pending action; answer with `Done`.
    DeleteAction(Action),
    /// Fetch at most `limit` records of `owner`; answer with `TodosFound`.
    FetchTodos { owner: String, limit: usize },
    /// Post a plain message; answer with `Done`.
    PostMessage { text: String, channel: String },
    /// Post a blocks message; answer with `Done`.
    PostBlocks { channel: String, blocks: String },
    /// Post blocks visible to `user` alone; answer with `Done`.
    PostEphemeral { blocks: String, channel: String, user: String },
    /// Post the document to the command's response URL; answer with `Done`.
    PostWebhook { url: String, blocks: String, ephemeral: bool },
    /// The request is over, with this outcome.
    Finish(Result<(), Failure>),
}

pub enum EffectView {
    OpenModal { trigger: Seq<char>, view: Seq<char> },
    InsertAction(ActionView),
    InsertTodo(TodoView),
    FetchAction(Seq<char>),
    DeleteAction(ActionView),
    FetchTodos { owner: Seq<char>, limit: nat },
    PostMessage { text: Seq<char>, channel: Seq<char> },
    PostBlocks { channel: Seq<char>, blocks: Seq<char> },
    PostEphemeral { blocks: Seq<char>, channel: Seq<char>, user: Seq<char> },
    PostWebhook { url: Seq<char>, blocks: Seq<char>, ephemeral: bool },
    Finish(Result<(), Failure>),
}

impl View for Effect {
    type V = EffectView;

    open spec fn view(&self) -> EffectView {
        match self {
            Effect::OpenModal(m) => EffectView::OpenModal { trigger: m.trigger@, view: m.data@ },
            Effect::InsertAction(a) => EffectView::InsertAction(a@),
            Effect::InsertTodo(t) => EffectView::InsertTodo(t@),
            Effect::FetchAction(id) => EffectView::FetchAction(id@),
            Effect::DeleteAction(a) => EffectView::DeleteAction(a@),
            Effect::FetchTodos { owner, limit } => EffectView::FetchTodos {
                owner: owner@,
                limit: *limit as nat,
            },
            Effect::PostMessage { text, channel } => EffectView::PostMessage {
                text: text@,
                channel: channel@,
            },
            Effect::PostBlocks { channel, blocks } => EffectView::PostBlocks {
                channel: channel@,
                blocks: blocks@,
            },
            Effect::PostEphemeral { blocks, channel, user } => EffectView::PostEphemeral {
                blocks: blocks@,
                channel: channel@,
                user: user@,
            },
            Effect::PostWebhook { url, blocks, ephemeral } => EffectView::PostWebhook {
                url: url@,
                blocks: blocks@,
                ephemeral: *ephemeral,
            },
            Effect::Finish(o) => EffectView::Finish(*o),
        }
    }
}

/// What came of the last effect.
pub enum Event {
    /// The dialog opened; the identifier the platform gave it, if the
    /// response held one.
    ModalOpened(Option<String>),
    /// The write or the post succeeded.
    Done,
    /// The pending action that was looked up.
    ActionFound(Action),
    /// The records that were fetched.
    TodosFound(Vec<Todo>),
    /// The effect failed.
    Failed(Failure),
}

pub enum EventView {
    ModalOpened(Option<Seq<char>>),
    Done,
    ActionFound(ActionView),
    TodosFound(Seq<TodoView>),
    Failed(Failure),
}

impl View for Event {
    type V = EventView;

    open spec fn view(&self) -> EventView {
        match self {
            Event::ModalOpened(id) => EventView::ModalOpened(id.deep_view()),
            Event::Done => EventView::Done,
            Event::ActionFound(a) => EventView::ActionFound(a@),
            Event::TodosFound(ts) => EventView::TodosFound(ts@.map_values(|t: Todo| t@)),
            Event::Failed(f) => EventView::Failed(*f),
        }
    }
}

/// The answer to a `FetchAction` from the rows found: the one pending action
/// with that identifier, `NotFound` where there is none, and `Duplicate`
/// rather than an arbitrary pick where there are several.
pub fn lookup_result(found: Vec<Action>) -> (r: Event)
    ensures
        found.len() == 0 ==> r@ == EventView::Failed(Failure::NotFound),
        found.len() == 1 ==> r@ == EventView::ActionFound(found[0]@),
        found.len() > 1 ==> r@ == EventView::Failed(Failure::Duplicate),
{
    let mut found = found;
    if found.len() == 1 {
        let only = found.remove(0);
        Event::ActionFound(only)
    } else if found.len() == 0 {
        Event::Failed(Failure::NotFound)
    } else {
        Event::Failed(Failure::Duplicate)
    }
}

/// The fresh identifier that an effect carries, where it stores a new record.
pub open spec fn drawn_id(e: EffectView) -> u128 {
    match e {
        EffectView::InsertAction(a) => a.id,
        EffectView::InsertTodo(t) => t.id,
        _ => 0,
    }
}

/// Whether an effect that stores a new record carries a fresh version 4
/// identifier, never the nil one.
pub open spec fn fresh_when_stored(e: EffectView) -> bool {
    (e is InsertTodo || e is InsertAction) ==> is_v4(drawn_id(e)) && drawn_id(e) != 0
}

pub open spec fn stop(f: Failure) -> EffectView {
    EffectView::Finish(Err(f))
}

/// The outcome of the last step: success on `Done`, the failure on `Failed`.
pub open spec fn closing(ev: EventView) -> EffectView {
    match ev {
        EventView::Done => EffectView::Finish(Ok(())),
        EventView::Failed(f) => stop(f),
        _ => stop(Failure::Unexpected),
    }
}

fn closing_exec(ev: Event) -> (r: Effect)
    ensures
        r@ == closing(ev@),
{
    match ev {
        Event::Done => Effect::Finish(Ok(())),
        Event::Failed(f) => Effect::Finish(Err(f)),
        _ => Effect::Finish(Err(Failure::Unexpected)),
    }
}

/// The confirmation document for a new record, from the `created` template.
pub open spec fn created_text(store: TemplateStore, title: Seq<char>, desc: Seq<char>) -> Option<
    Seq<char>,
> {
    match lookup(store.blocks.deep_view(), "created"@) {
        Some(tpl) => Some(fill_all(tpl, seq![("title"@, title), ("desc"@, desc)])),
        None => None,
    }
}

fn created_block(store: &TemplateStore, title: String, desc: String) -> (r: Result<
    SlackBlock,
    TemplateError,
>)
    ensures
        match created_text(*store, title@, desc@) {
            Some(t) => r is Ok && r->Ok_0.data@ == t,
            None => r == Err::<SlackBlock, TemplateError>(TemplateError::NotFound),
        },
{
    let mut block = SlackBlock::new("created".to_owned());
    match block.load(store) {
        Ok(()) => {},
        Err(e) => {
            return Err(e);
        },
    }
    let args = vec![("title".to_owned(), title), ("desc".to_owned(), desc)];
    assert(args.deep_view() =~= seq![("title"@, title@), ("desc"@, desc@)]);
    block.fill(&args);
    Ok(block)
}

// ---------------------------------------------------------------------------
// Creating a record from a slash command.

/// Where a create command stands.
pub enum CreateFlow {
    /// The dialog is being opened for this user and channel.
    OpeningModal { user: String, channel: String },
    /// The pending action is being stored.
    StoringAction,
    /// The record is being stored; the reply goes to `url`.
    StoringTodo { url: String, title: String },
    /// The confirmation is being posted.
    Replying,
    Finished,
}

pub enum CreateView {
    OpeningModal { user: Seq<char>, channel: Seq<char> },
    StoringAction,
    StoringTodo { url: Seq<char>, title: Seq<char> },
    Replying,
    Finished,
}

impl View for CreateFlow {
    type V = CreateView;

    open spec fn view(&self) -> CreateView {
        match self {
            CreateFlow::OpeningModal { user, channel } => CreateView::OpeningModal {
                user: user@,
                channel: channel@,
            },
            CreateFlow::StoringAction => CreateView::StoringAction,
            CreateFlow::StoringTodo { url, title } => CreateView::StoringTodo {
                url: url@,
                title: title@,
            },
            CreateFlow::Replying => CreateView::Replying,
            CreateFlow::Finished => CreateView::Finished,
        }
    }
}

/// Whether the command's text is blank once trimmed: white space only.
pub open spec fn is_blank(text: Seq<char>) -> bool {
    all_white_space(text)
}

/// The first step of a create command. Blank text opens the `create` dialog
/// for the command's channel; other text becomes a record titled by it.
pub open spec fn create_start(cmd: SlackCommand, store: TemplateStore, fresh: u128) -> (
    CreateView,
    EffectView,
) {
    if is_blank(cmd.text@) {
        match lookup(store.modals.deep_view(), "create"@) {
            Some(tpl) => (
                CreateView::OpeningModal { user: cmd.user_id@, channel: cmd.channel_id@ },
                EffectView::OpenModal {
                    trigger: cmd.trigger_id@,
                    view: fill_all(tpl, seq![("initial_channel"@, cmd.channel_id@)]),
                },
            ),
            None => (CreateView::Finished, stop(Failure::Template(TemplateError::NotFound))),
        }
    } else {
        (
            CreateView::StoringTodo { url: cmd.response_url@, title: cmd.text@ },
            EffectView::InsertTodo(
                TodoView {
                    id: fresh,
                    title: cmd.text@,
                    description: None,
                    completed: false,
                    slack_user: cmd.user_id@,
                },
            ),
        )
    }
}

/// One step of a create command, on the event that answers its last effect.
pub open spec fn create_next(s: CreateView, ev: EventView, store: TemplateStore, fresh: u128) -> (
    CreateView,
    EffectView,
) {
    match s {
        CreateView::OpeningModal { user, channel } => match ev {
            EventView::ModalOpened(Some(view_id)) => (
                CreateView::StoringAction,
                EffectView::InsertAction(
                    ActionView {
                        id: fresh,
                        slack_id: view_id,
                        slack_user: user,
                        slack_channel: channel,
                        kind: ActionType::CreateModal,
                    },
                ),
            ),
            EventView::ModalOpened(None) => (CreateView::Finished, stop(Failure::MalformedInput)),
            _ => (CreateView::Finished, closing(ev)),
        },
        CreateView::StoringTodo { url, title } => match ev {
            EventView::Done => match created_text(store, title, Seq::<char>::empty()) {
                Some(doc) => (
                    CreateView::Replying,
                    EffectView::PostWebhook { url, blocks: doc, ephemeral: true },
                ),
                None => (CreateView::Finished, stop(Failure::Template(TemplateError::NotFound))),
            },
            _ => (CreateView::Finished, closing(ev)),
        },
        CreateView::StoringAction | CreateView::Replying => (CreateView::Finished, closing(ev)),
        CreateView::Finished => (CreateView::Finished, stop(Failure::Unexpected)),
    }
}

impl CreateFlow {
    /// Begins handling a create command.
    pub fn start(cmd: &SlackCommand, store: &TemplateStore) -> (r: (CreateFlow, Effect))
        ensures
            (r.0@, r.1@) == create_start(*cmd, *store, drawn_id(r.1@)),
            fresh_when_stored(r.1@),
    {
        if is_blank_text(cmd.text.as_str()) {
            let mut modal = SlackModal::new("create".to_owned(), cmd.trigger_id.clone());
            match modal.load(store) {
                Ok(()) => {},
                Err(e) => {
                    return (CreateFlow::Finished, Effect::Finish(Err(Failure::Template(e))));
                },
            }
            let args = vec![("initial_channel".to_owned(), cmd.channel_id.clone())];
            assert(args.deep_view() =~= seq![("initial_channel"@, cmd.channel_id@)]);
            modal.fill(&args);
            (
                CreateFlow::OpeningModal {
                    user: cmd.user_id.clone(),
                    channel: cmd.channel_id.clone(),
                },
                Effect::OpenModal(modal),
            )
        } else {
            let mut todo = Todo {
                id: 0,
                title: cmd.text.clone(),
                description: None,
                completed: false,
                slack_user: cmd.user_id.clone(),
            };
            todo.assign_id();
            (
                CreateFlow::StoringTodo {
                    url: cmd.response_url.clone(),
                    title: cmd.text.clone(),
                },
                Effect::InsertTodo(todo),
            )
        }
    }

    /// Takes the event that answers the last effect.
    pub fn step(self, ev: Event, store: &TemplateStore) -> (r: (CreateFlow, Effect))
        ensures
            (r.0@, r.1@) == create_next(self@, ev@, *store, drawn_id(r.1@)),
            fresh_when_stored(r.1@),
    {
        match self {
            CreateFlow::OpeningModal { user, channel } => match ev {
                Event::ModalOpened(Some(view_id)) => {
                    let mut action = Action::new(ActionType::CreateModal, view_id, user, channel);
                    action.assign_id();
                    (CreateFlow::StoringAction, Effect::InsertAction(action))
                },
                Event::ModalOpened(None) => (
                    CreateFlow::Finished,
                    Effect::Finish(Err(Failure::MalformedInput)),
                ),
                _ => (CreateFlow::Finished, closing_exec(ev)),
            },
            CreateFlow::StoringTodo { url, title } => match ev {
                Event::Done => match created_block(store, title, String::new()) {
                    Ok(block) => (
                        CreateFlow::Replying,
                        Effect::PostWebhook { url, blocks: block.data, ephemeral: true },
                    ),
                    Err(e) => (CreateFlow::Finished, Effect::Finish(Err(Failure::Template(e)))),
                },
                _ => (CreateFlow::Finished, closing_exec(ev)),
            },
            CreateFlow::StoringAction | CreateFlow::Replying => (
                CreateFlow::Finished,
                closing_exec(ev),
            ),
            CreateFlow::Finished => (CreateFlow::Finished, Effect::Finish(Err(Failure::Unexpected))),
        }
    }
}


// ---------------------------------------------------------------------------
// Listing the records of a user.

/// Where a list command stands.
pub enum ListFlow {
    /// The records are being fetched; they are shown as `display`'s, in
    /// `channel`.
    Fetching { display: String, channel: String },
    /// The reply is being posted.
    Replying,
    Finished,
}

pub enum ListView {
    Fetching { display: Seq<char>, channel: Seq<char> },
    Replying,
    Finished,
}

impl View for ListFlow {
    type V = ListView;

    open spec fn view(&self) -> ListView {
        match self {
            ListFlow::Fetching { display, channel } => ListView::Fetching {
                display: display@,
                channel: channel@,
            },
            ListFlow::Replying => ListView::Replying,
            ListFlow::Finished => ListView::Finished,
        }
    }
}

/// The user whose records a list command shows, as id and display name:
/// the invoking user for empty text, else the user of the mention token.
pub open spec fn list_target(cmd: SlackCommand) -> Option<(Seq<char>, Seq<char>)> {
    if cmd.text@.len() == 0 {
        Some((cmd.user_id@, cmd.user_name@))
    } else {
        parse_mention(cmd.text@)
    }
}

/// The plain reply for a user without records.
pub open spec fn none_found_text(display: Seq<char>) -> Seq<char> {
    "No todos found for <@"@ + display + ">"@
}

/// Each record rendered through the template `tpl`.
pub open spec fn rendered(tpl: Seq<char>, todos: Seq<TodoView>) -> Seq<Seq<char>> {
    todos.map_values(|t: TodoView| fill_all(tpl, todo_args(t)))
}

/// The blocks that list `todos` as `display`'s: the entries rendered through
/// the `todo` template and joined by commas, put into the `list` template with
/// the display name, and cut down to its `blocks` member.
pub open spec fn list_blocks(store: TemplateStore, display: Seq<char>, todos: Seq<TodoView>) -> Result<
    Seq<char>,
    TemplateError,
> {
    match lookup(store.blocks.deep_view(), "todo"@) {
        None => Err(TemplateError::NotFound),
        Some(entry) => match lookup(store.blocks.deep_view(), "list"@) {
            None => Err(TemplateError::NotFound),
            Some(tpl) => match blocks_member(
                fill_all(tpl, seq![("list"@, join(rendered(entry, todos), ","@)), ("user"@, display)]),
            ) {
                Some(b) => Ok(b),
                None => Err(TemplateError::InvalidFormat),
            },
        },
    }
}

/// The first step of a list command.
pub open spec fn list_start(cmd: SlackCommand) -> (ListView, EffectView) {
    match list_target(cmd) {
        Some(target) => (
            ListView::Fetching { display: target.1, channel: cmd.channel_id@ },
            EffectView::FetchTodos { owner: target.0, limit: LIST_LIMIT as nat },
        ),
        None => (ListView::Finished, stop(Failure::MalformedInput)),
    }
}

/// One step of a list command, on the event that answers its last effect.
pub open spec fn list_next(s: ListView, ev: EventView, store: TemplateStore) -> (
    ListView,
    EffectView,
) {
    match s {
        ListView::Fetching { display, channel } => match ev {
            EventView::TodosFound(todos) => if todos.len() == 0 {
                (
                    ListView::Replying,
                    EffectView::PostMessage { text: none_found_text(display), channel },
                )
            } else {
                match list_blocks(store, display, todos) {
                    Ok(b) => (ListView::Replying, EffectView::PostBlocks { channel, blocks: b }),
                    Err(e) => (ListView::Finished, stop(Failure::Template(e))),
                }
            },
            _ => (ListView::Finished, closing(ev)),
        },
        ListView::Replying => (ListView::Finished, closing(ev)),
        ListView::Finished => (ListView::Finished, stop(Failure::Unexpected)),
    }
}

fn render_entries(todos: &Vec<Todo>, store: &TemplateStore) -> (r: Result<String, TemplateError>)
    ensures
        match lookup(store.blocks.deep_view(), "todo"@) {
            Some(entry) => r is Ok && r->Ok_0@ == join(
                rendered(entry, todos@.map_values(|t: Todo| t@)),
                ","@,
            ),
            None => todos.len() > 0 ==> r == Err::<String, TemplateError>(TemplateError::NotFound),
        },
{
    let ghost views = todos@.map_values(|t: Todo| t@);
    let ghost entry = lookup(store.blocks.deep_view(), "todo"@);
    let mut out = String::new();
    let mut i: usize = 0;
    while i < todos.len()
        invariant
            i <= todos.len(),
            views == todos@.map_values(|t: Todo| t@),
            entry == lookup(store.blocks.deep_view(), "todo"@),
            entry is Some ==> out@ == join(rendered(entry->0, views.take(i as int)), ","@),
            entry is None ==> i == 0,
        decreases todos.len() - i,
    {
        let block = match todos[i].block(store) {
            Ok(b) => b,
            Err(e) => {
                return Err(e);
            },
        };
        let ghost parts = rendered(entry->0, views.take(i as int));
        proof {
            join_push(parts, ","@, block.data@);
            assert(rendered(entry->0, views.take(i + 1)) =~= parts.push(block.data@));
        }
        if i > 0 {
            out.push_str(",");
        }
        out.push_str(block.data.as_str());
        i = i + 1;
    }
    proof {
        if entry is Some {
            assert(views.take(todos.len() as int) =~= views);
        }
    }
    Ok(out)
}

impl ListFlow {
    /// Begins handling a list command.
    pub fn start(cmd: &SlackCommand) -> (r: (ListFlow, Effect))
        ensures
            (r.0@, r.1@) == list_start(*cmd),
    {
        let target = if cmd.text.as_str().is_empty() {
            SlackEscape { id: cmd.user_id.clone(), display: cmd.user_name.clone() }
        } else {
            match SlackEscape::parse(cmd.text.as_str()) {
                Some(t) => t,
                None => {
                    return (ListFlow::Finished, Effect::Finish(Err(Failure::MalformedInput)));
                },
            }
        };
        (
            ListFlow::Fetching { display: target.display, channel: cmd.channel_id.clone() },
            Effect::FetchTodos { owner: target.id, limit: LIST_LIMIT },
        )
    }

    /// Takes the event that answers the last effect.
    pub fn step(self, ev: Event, store: &TemplateStore) -> (r: (ListFlow, Effect))
        ensures
            (r.0@, r.1@) == list_next(self@, ev@, *store),
    {
        match self {
            ListFlow::Fetching { display, channel } => match ev {
                Event::TodosFound(todos) => {
                    if todos.len() == 0 {
                        let mut text = String::new();
                        text.push_str("No todos found for <@");
                        text.push_str(display.as_str());
                        text.push_str(">");
                        assert(text@ =~= none_found_text(display@));
                        return (ListFlow::Replying, Effect::PostMessage { text, channel });
                    }
                    let entries = match render_entries(&todos, store) {
                        Ok(t) => t,
                        Err(e) => {
                            return (ListFlow::Finished, Effect::Finish(Err(Failure::Template(e))));
                        },
                    };
                    let mut block = SlackBlock::new("list".to_owned());
                    match block.load(store) {
                        Ok(()) => {},
                        Err(e) => {
                            return (ListFlow::Finished, Effect::Finish(Err(Failure::Template(e))));
                        },
                    }
                    let ghost joined = entries@;
                    let args = vec![("list".to_owned(), entries), ("user".to_owned(), display)];
                    assert(args.deep_view() =~= seq![("list"@, joined), ("user"@, display@)]);
                    block.fill(&args);
                    match block.trim() {
                        Ok(()) => (
                            ListFlow::Replying,
                            Effect::PostBlocks { channel, blocks: block.data },
                        ),
                        Err(e) => (ListFlow::Finished, Effect::Finish(Err(Failure::Template(e)))),
                    }
                },
                _ => (ListFlow::Finished, closing_exec(ev)),
            },
            ListFlow::Replying => (ListFlow::Finished, closing_exec(ev)),
            ListFlow::Finished => (ListFlow::Finished, Effect::Finish(Err(Failure::Unexpected))),
        }
    }
}


// ---------------------------------------------------------------------------
// Handling a dialog submission.

/// Where an interaction stands.
pub enum InteractionFlow {
    /// The pending action is being looked up; the submitted inputs wait.
    Fetching { title: Option<String>, description: Option<String> },
    /// The pending action is being deleted.
    Deleting { action: Action, title: Option<String>, description: Option<String> },
    /// The record is being stored; the confirmation, of its title `text` and
    /// description `details`, goes to `user` in `channel`.
    Storing { text: String, details: Option<String>, channel: String, user: String },
    /// The confirmation is being posted.
    Replying,
    Finished,
}

pub enum InteractionView {
    Fetching { title: Option<Seq<char>>, description: Option<Seq<char>> },
    Deleting { action: ActionView, title: Option<Seq<char>>, description: Option<Seq<char>> },
    Storing {
        text: Seq<char>,
        details: Option<Seq<char>>,
        channel: Seq<char>,
        user: Seq<char>,
    },
    Replying,
    Finished,
}

impl View for InteractionFlow {
    type V = InteractionView;

    open spec fn view(&self) -> InteractionView {
        match self {
            InteractionFlow::Fetching { title, description } => InteractionView::Fetching {
                title: title.deep_view(),
                description: description.deep_view(),
            },
            InteractionFlow::Deleting { action, title, description } => InteractionView::Deleting {
                action: action@,
                title: title.deep_view(),
                description: description.deep_view(),
            },
            InteractionFlow::Storing { text, details, channel, user } => InteractionView::Storing {
                text: text@,
                details: details.deep_view(),
                channel: channel@,
                user: user@,
            },
            InteractionFlow::Replying => InteractionView::Replying,
            InteractionFlow::Finished => InteractionView::Finished,
        }
    }
}

/// The first step of an interaction: a dialog submission looks up the
/// pending action of its view; any other kind of interaction is ignored.
pub open spec fn interaction_start(data: SlackInteractionData) -> (InteractionView, EffectView) {
    if data.kind@ == "view_submission"@ {
        (
            InteractionView::Fetching {
                title: data.view.title.deep_view(),
                description: data.view.description.deep_view(),
            },
            EffectView::FetchAction(data.view.id@),
        )
    } else {
        (InteractionView::Finished, EffectView::Finish(Ok(())))
    }
}

/// One step of an interaction, on the event that answers its last effect.
pub open spec fn interaction_next(
    s: InteractionView,
    ev: EventView,
    store: TemplateStore,
    fresh: u128,
) -> (InteractionView, EffectView) {
    match s {
        InteractionView::Fetching { title, description } => match ev {
            EventView::ActionFound(action) => match action.kind {
                ActionType::CreateModal => (
                    InteractionView::Deleting { action, title, description },
                    EffectView::DeleteAction(action),
                ),
            },
            _ => (InteractionView::Finished, closing(ev)),
        },
        InteractionView::Deleting { action, title, description } => match ev {
            EventView::Done => match title {
                Some(t) => (
                    InteractionView::Storing {
                        text: t,
                        details: description,
                        channel: action.slack_channel,
                        user: action.slack_user,
                    },
                    EffectView::InsertTodo(
                        TodoView {
                            id: fresh,
                            title: t,
                            description,
                            completed: false,
                            slack_user: action.slack_user,
                        },
                    ),
                ),
                None => (InteractionView::Finished, stop(Failure::MalformedInput)),
            },
            _ => (InteractionView::Finished, closing(ev)),
        },
        InteractionView::Storing { text, details, channel, user } => match ev {
            EventView::Done => match created_text(
                store,
                text,
                text_or(details, Seq::<char>::empty()),
            ) {
                Some(doc) => match blocks_member(doc) {
                    Some(b) => (
                        InteractionView::Replying,
                        EffectView::PostEphemeral { blocks: b, channel, user },
                    ),
                    None => (
                        InteractionView::Finished,
                        stop(Failure::Template(TemplateError::InvalidFormat)),
                    ),
                },
                None => (
                    InteractionView::Finished,
                    stop(Failure::Template(TemplateError::NotFound)),
                ),
            },
            _ => (InteractionView::Finished, closing(ev)),
        },
        InteractionView::Replying => (InteractionView::Finished, closing(ev)),
        InteractionView::Finished => (InteractionView::Finished, stop(Failure::Unexpected)),
    }
}

impl InteractionFlow {
    /// Begins handling an interaction.
    pub fn start(data: &SlackInteractionData) -> (r: (InteractionFlow, Effect))
        ensures
            (r.0@, r.1@) == interaction_start(*data),
    {
        if data.kind == "view_submission".to_owned() {
            (
                InteractionFlow::Fetching {
                    title: clone_text(&data.view.title),
                    description: clone_text(&data.view.description),
                },
                Effect::FetchAction(data.view.id.clone()),
            )
        } else {
            (InteractionFlow::Finished, Effect::Finish(Ok(())))
        }
    }

    /// Takes the event that answers the last effect.
    pub fn step(self, ev: Event, store: &TemplateStore) -> (r: (InteractionFlow, Effect))
        ensures
            (r.0@, r.1@) == interaction_next(self@, ev@, *store, drawn_id(r.1@)),
            fresh_when_stored(r.1@),
    {
        match self {
            InteractionFlow::Fetching { title, description } => match ev {
                Event::ActionFound(action) => match action.kind {
                    ActionType::CreateModal => {
                        let doomed = action.clone();
                        (
                            InteractionFlow::Deleting { action, title, description },
                            Effect::DeleteAction(doomed),
                        )
                    },
                },
                _ => (InteractionFlow::Finished, closing_exec(ev)),
            },
            InteractionFlow::Deleting { action, title, description } => match ev {
                Event::Done => match title {
                    Some(t) => {
                        let mut todo = Todo {
                            id: 0,
                            title: t.clone(),
                            description: clone_text(&description),
                            completed: false,
                            slack_user: action.slack_user.clone(),
                        };
                        todo.assign_id();
                        (
                            InteractionFlow::Storing {
                                text: t,
                                details: description,
                                channel: action.slack_channel,
                                user: action.slack_user,
                            },
                            Effect::InsertTodo(todo),
                        )
                    },
                    None => (InteractionFlow::Finished, Effect::Finish(Err(Failure::MalformedInput))),
                },
                _ => (InteractionFlow::Finished, closing_exec(ev)),
            },
            InteractionFlow::Storing { text, details, channel, user } => match ev {
                Event::Done => {
                    let desc = match details {
                        Some(d) => d,
                        None => String::new(),
                    };
                    let mut block = match created_block(store, text, desc) {
                        Ok(b) => b,
                        Err(e) => {
                            return (
                                InteractionFlow::Finished,
                                Effect::Finish(Err(Failure::Template(e))),
                            );
                        },
                    };
                    match block.trim() {
                        Ok(()) => (
                            InteractionFlow::Replying,
                            Effect::PostEphemeral { blocks: block.data, channel, user },
                        ),
                        Err(e) => (
                            InteractionFlow::Finished,
                            Effect::Finish(Err(Failure::Template(e))),
                        ),
                    }
                },
                _ => (InteractionFlow::Finished, closing_exec(ev)),
            },
            InteractionFlow::Replying => (InteractionFlow::Finished, closing_exec(ev)),
            InteractionFlow::Finished => (
                InteractionFlow::Finished,
                Effect::Finish(Err(Failure::Unexpected)),
            ),
        }
    }
}

} // verus!
