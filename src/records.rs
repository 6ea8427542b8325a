use vstd::prelude::*;

use crate::template::{fill_all, SlackBlock, TemplateError, TemplateStore};

verus! {

/// The sixteen lower-case hexadecimal digits, in order.
pub open spec fn hex_digits() -> Seq<char> {
    seq!['0', '1', '2', '3', '4', '5', '6', '7', '8', '9', 'a', 'b', 'c', 'd', 'e', 'f']
}

/// The hyphenated lower-case form of the identifier `v` (8-4-4-4-12 hex
/// digits, most significant first), e.g. `67e55044-10b1-426f-9247-bb680e5fe0c8`.
pub open spec fn hyphenated(v: u128) -> Seq<char> {
    Seq::new(
        36,
        |i: int|
            if i == 8 || i == 13 || i == 18 || i == 23 {
                '-'
            } else {
                let j = if i < 8 {
                    i
                } else if i < 13 {
                    i - 1
                } else if i < 18 {
                    i - 2
                } else if i < 23 {
                    i - 3
                } else {
                    i - 4
                };
                hex_digits()[((v >> ((124 - 4 * j) as u128)) & 15u128) as int]
            },
    )
}

/// Relies on `uuid::Uuid::from_u128` (the value's big-endian bytes) and on
/// `Uuid`'s `Display`, which writes the hyphenated lower-case form.
#[verifier::external_body]
fn uuid_string(v: u128) -> (r: String)
    ensures
        r@ == hyphenated(v),
{
    uuid::Uuid::from_u128(v).to_string()
}

/// Whether `v` is a random (version 4) identifier of the RFC variant: the
/// version nibble is 4 and the two variant bits are `10`.
pub open spec fn is_v4(v: u128) -> bool {
    (v >> 76u128) & 0xfu128 == 4u128 && (v >> 62u128) & 0x3u128 == 2u128
}

/// A version 4 identifier is never the nil identifier.
pub proof fn v4_is_not_nil(v: u128)
    requires
        is_v4(v),
    ensures
        v != 0,
{
    assert((v >> 76u128) & 0xfu128 == 4u128 ==> v != 0) by (bit_vector);
}

/// Relies on `uuid::Uuid::new_v4`: random bits, with the version nibble set to
/// 4 and the variant bits to `10` by its mask.
#[verifier::external_body]
fn random_uuid() -> (r: u128)
    ensures
        is_v4(r),
{
    uuid::Uuid::new_v4().as_u128()
}

/// What follow-up a pending action runs when its dialog is submitted.
#[derive(Debug, Clone, Copy, PartialEq, Eq, Structural)]
pub enum ActionType {
    CreateModal,
}

/// A pending action: correlates an opened dialog (`slack_id`) with the user
/// and channel of the command that opened it.
pub struct Action {
    pub id: u128,
    pub slack_id: String,
    pub slack_user: String,
    pub slack_channel: String,
    pub kind: ActionType,
}

pub struct ActionView {
    pub id: u128,
    pub slack_id: Seq<char>,
    pub slack_user: Seq<char>,
    pub slack_channel: Seq<char>,
    pub kind: ActionType,
}

impl View for Action {
    type V = ActionView;

    open spec fn view(&self) -> ActionView {
        ActionView {
            id: self.id,
            slack_id: self.slack_id@,
            slack_user: self.slack_user@,
            slack_channel: self.slack_channel@,
            kind: self.kind,
        }
    }
}

impl Action {
    /// A pending action with the nil identifier.
    pub fn new(kind: ActionType, slack_id: String, slack_user: String, slack_channel: String) -> (r:
        Action)
        ensures
            r@ == (ActionView {
                id: 0,
                slack_id: slack_id@,
                slack_user: slack_user@,
                slack_channel: slack_channel@,
                kind,
            }),
    {
        Action { id: 0, slack_id, slack_user, slack_channel, kind }
    }

    /// Gives the action a fresh random version 4 identifier, never the nil one;
    /// nothing else changes.
    pub fn assign_id(&mut self)
        ensures
            final(self)@ == (ActionView { id: final(self).id, ..old(self)@ }),
            is_v4(final(self).id),
            final(self).id != 0,
    {
        self.id = random_uuid();
        proof {
            v4_is_not_nil(self.id);
        }
    }

    pub fn clone(&self) -> (r: Action)
        ensures
            r@ == self@,
    {
        Action {
            id: self.id,
            slack_id: self.slack_id.clone(),
            slack_user: self.slack_user.clone(),
            slack_channel: self.slack_channel.clone(),
            kind: self.kind,
        }
    }
}

/// A to-do record.
pub struct Todo {
    pub id: u128,
    pub title: String,
    pub description: Option<String>,
    pub completed: bool,
    pub slack_user: String,
}

pub struct TodoView {
    pub id: u128,
    pub title: Seq<char>,
    pub description: Option<Seq<char>>,
    pub completed: bool,
    pub slack_user: Seq<char>,
}

impl View for Todo {
    type V = TodoView;

    open spec fn view(&self) -> TodoView {
        TodoView {
            id: self.id,
            title: self.title@,
            description: self.description.deep_view(),
            completed: self.completed,
            slack_user: self.slack_user@,
        }
    }
}

/// `d`, or `default` where there is none.
pub open spec fn text_or(d: Option<Seq<char>>, default: Seq<char>) -> Seq<char> {
    match d {
        Some(t) => t,
        None => default,
    }
}

/// The substitutions that render one to-do entry.
pub open spec fn todo_args(t: TodoView) -> Seq<(Seq<char>, Seq<char>)> {
    seq![
        ("id"@, hyphenated(t.id)),
        ("title"@, t.title),
        ("desc"@, text_or(t.description, "_No Description_"@)),
    ]
}

pub(crate) fn clone_text(d: &Option<String>) -> (r: Option<String>)
    ensures
        r.deep_view() == d.deep_view(),
{
    match d {
        Some(t) => Some(t.clone()),
        None => None,
    }
}

impl Todo {
    /// Gives the record a fresh random version 4 identifier, never the nil one;
    /// nothing else changes.
    pub fn assign_id(&mut self)
        ensures
            final(self)@ == (TodoView { id: final(self).id, ..old(self)@ }),
            is_v4(final(self).id),
            final(self).id != 0,
    {
        self.id = random_uuid();
        proof {
            v4_is_not_nil(self.id);
        }
    }

    /// This record rendered through the `todo` block template.
    pub fn block(&self, store: &TemplateStore) -> (r: Result<SlackBlock, TemplateError>)
        ensures
            match crate::template::lookup(store.blocks.deep_view(), "todo"@) {
                Some(tpl) => r is Ok && r->Ok_0.name@ == "todo"@ && r->Ok_0.data@ == fill_all(
                    tpl,
                    todo_args(self@),
                ),
                None => r == Err::<SlackBlock, TemplateError>(TemplateError::NotFound),
            },
    {
        let mut block = SlackBlock::new("todo".to_owned());
        match block.load(store) {
            Ok(()) => {},
            Err(e) => {
                return Err(e);
            },
        }
        let desc = match &self.description {
            Some(d) => d.clone(),
            None => "_No Description_".to_owned(),
        };
        let args = vec![
            ("id".to_owned(), uuid_string(self.id)),
            ("title".to_owned(), self.title.clone()),
            ("desc".to_owned(), desc),
        ];
        assert(args.deep_view() =~= todo_args(self@));
        block.fill(&args);
        Ok(block)
    }
}

} // verus!
