use vstd::prelude::*;

use crate::flow::{
    closing,
    is_blank,
    list_blocks,
    list_target,
    none_found_text,
    create_next,
    create_start,
    interaction_next,
    interaction_start,
    list_next,
    list_start,
    CreateView,
    EffectView,
    EventView,
    Failure,
    InteractionView,
    ListView,
};
use crate::payloads::{SlackCommand, SlackInteractionData};
use crate::records::{is_v4, v4_is_not_nil, ActionType, ActionView, TodoView};
use crate::template::{lookup, TemplateStore};

verus! {

/// How many effects of `effs` satisfy `p`.
pub open spec fn count(effs: Seq<EffectView>, p: spec_fn(EffectView) -> bool) -> nat
    decreases effs.len(),
{
    if effs.len() == 0 {
        0
    } else {
        (if p(effs[0]) {
            1nat
        } else {
            0nat
        }) + count(effs.drop_first(), p)
    }
}

/// Effects that store a record.
pub open spec fn todo_inserts() -> spec_fn(EffectView) -> bool {
    |e: EffectView| e is InsertTodo
}

/// Effects that store a pending action.
pub open spec fn action_inserts() -> spec_fn(EffectView) -> bool {
    |e: EffectView| e is InsertAction
}

/// Effects that delete a pending action.
pub open spec fn action_deletes() -> spec_fn(EffectView) -> bool {
    |e: EffectView| e is DeleteAction
}

/// Effects that write to the store.
pub open spec fn store_writes() -> spec_fn(EffectView) -> bool {
    |e: EffectView| e is InsertTodo || e is InsertAction || e is DeleteAction
}

/// Plain-text message posts.
pub open spec fn plain_posts() -> spec_fn(EffectView) -> bool {
    |e: EffectView| e is PostMessage
}

/// Blocks message posts.
pub open spec fn blocks_posts() -> spec_fn(EffectView) -> bool {
    |e: EffectView| e is PostBlocks
}

/// Posts to a response URL.
pub open spec fn webhook_posts() -> spec_fn(EffectView) -> bool {
    |e: EffectView| e is PostWebhook
}

/// The effects of a create command from state `s` on the events `evs`, the
/// `k`-th step drawing the identifier `ids[k]`.
pub open spec fn create_run(
    s: CreateView,
    evs: Seq<EventView>,
    store: TemplateStore,
    ids: Seq<u128>,
) -> Seq<EffectView>
    decreases evs.len(),
{
    if evs.len() == 0 {
        Seq::<EffectView>::empty()
    } else {
        let next = create_next(s, evs[0], store, ids[0]);
        seq![next.1] + create_run(next.0, evs.drop_first(), store, ids.drop_first())
    }
}

/// All effects of a create command on the events `evs`; the start draws
/// `ids[0]`, the step on `evs[k]` draws `ids[k + 1]`.
pub open spec fn create_effects(
    cmd: SlackCommand,
    store: TemplateStore,
    evs: Seq<EventView>,
    ids: Seq<u128>,
) -> Seq<EffectView> {
    let first = create_start(cmd, store, ids[0]);
    seq![first.1] + create_run(first.0, evs, store, ids.drop_first())
}

pub open spec fn list_run(s: ListView, evs: Seq<EventView>, store: TemplateStore) -> Seq<
    EffectView,
>
    decreases evs.len(),
{
    if evs.len() == 0 {
        Seq::<EffectView>::empty()
    } else {
        let next = list_next(s, evs[0], store);
        seq![next.1] + list_run(next.0, evs.drop_first(), store)
    }
}

/// All effects of a list command on the events `evs`.
pub open spec fn list_effects(cmd: SlackCommand, store: TemplateStore, evs: Seq<EventView>) -> Seq<
    EffectView,
> {
    let first = list_start(cmd);
    seq![first.1] + list_run(first.0, evs, store)
}

pub open spec fn interaction_run(
    s: InteractionView,
    evs: Seq<EventView>,
    store: TemplateStore,
    ids: Seq<u128>,
) -> Seq<EffectView>
    decreases evs.len(),
{
    if evs.len() == 0 {
        Seq::<EffectView>::empty()
    } else {
        let next = interaction_next(s, evs[0], store, ids[0]);
        seq![next.1] + interaction_run(next.0, evs.drop_first(), store, ids.drop_first())
    }
}

/// All effects of an interaction on the events `evs`; the step on `evs[k]`
/// draws `ids[k]`.
pub open spec fn interaction_effects(
    data: SlackInteractionData,
    store: TemplateStore,
    evs: Seq<EventView>,
    ids: Seq<u128>,
) -> Seq<EffectView> {
    let first = interaction_start(data);
    seq![first.1] + interaction_run(first.0, evs, store, ids)
}

proof fn count_cons(e: EffectView, rest: Seq<EffectView>, p: spec_fn(EffectView) -> bool)
    ensures
        count(seq![e] + rest, p) == (if p(e) {
            1nat
        } else {
            0nat
        }) + count(rest, p),
{
    assert((seq![e] + rest).drop_first() =~= rest);
}

/// Whether every identifier drawn is a version 4 one, as `assign_id` draws.
pub open spec fn all_v4(ids: Seq<u128>) -> bool {
    forall|k: int| 0 <= k < ids.len() ==> #[trigger] is_v4(ids[k])
}

/// A predicate that no `Finish` effect satisfies.
pub open spec fn ignores_finish(p: spec_fn(EffectView) -> bool) -> bool {
    forall|o: Result<(), Failure>| !#[trigger] p(EffectView::Finish(o))
}

proof fn closing_is_finish(ev: EventView)
    ensures
        closing(ev) is Finish,
{
}

proof fn create_tail_quiet(
    s: CreateView,
    evs: Seq<EventView>,
    store: TemplateStore,
    ids: Seq<u128>,
    p: spec_fn(EffectView) -> bool,
)
    requires
        s is StoringAction || s is Replying || s is Finished,
        ignores_finish(p),
        ids.len() == evs.len(),
    ensures
        count(create_run(s, evs, store, ids), p) == 0,
    decreases evs.len(),
{
    if evs.len() > 0 {
        let next = create_next(s, evs[0], store, ids[0]);
        closing_is_finish(evs[0]);
        assert(!p(next.1)) by {
            let o = next.1->Finish_0;
            assert(next.1 == EffectView::Finish(o));
        }
        create_tail_quiet(next.0, evs.drop_first(), store, ids.drop_first(), p);
        count_cons(next.1, create_run(next.0, evs.drop_first(), store, ids.drop_first()), p);
    }
}

proof fn list_tail_quiet(
    s: ListView,
    evs: Seq<EventView>,
    store: TemplateStore,
    p: spec_fn(EffectView) -> bool,
)
    requires
        s is Replying || s is Finished,
        ignores_finish(p),
    ensures
        count(list_run(s, evs, store), p) == 0,
    decreases evs.len(),
{
    if evs.len() > 0 {
        let next = list_next(s, evs[0], store);
        closing_is_finish(evs[0]);
        assert(!p(next.1)) by {
            let o = next.1->Finish_0;
            assert(next.1 == EffectView::Finish(o));
        }
        list_tail_quiet(next.0, evs.drop_first(), store, p);
        count_cons(next.1, list_run(next.0, evs.drop_first(), store), p);
    }
}

proof fn interaction_tail_quiet(
    s: InteractionView,
    evs: Seq<EventView>,
    store: TemplateStore,
    ids: Seq<u128>,
    p: spec_fn(EffectView) -> bool,
)
    requires
        s is Replying || s is Finished,
        ignores_finish(p),
        ids.len() == evs.len(),
    ensures
        count(interaction_run(s, evs, store, ids), p) == 0,
    decreases evs.len(),
{
    if evs.len() > 0 {
        let next = interaction_next(s, evs[0], store, ids[0]);
        closing_is_finish(evs[0]);
        assert(!p(next.1)) by {
            let o = next.1->Finish_0;
            assert(next.1 == EffectView::Finish(o));
        }
        interaction_tail_quiet(next.0, evs.drop_first(), store, ids.drop_first(), p);
        count_cons(next.1, interaction_run(next.0, evs.drop_first(), store, ids.drop_first()), p);
    }
}


/// A create command whose text is blank never stores a record, whatever
/// events answer it; it stores at most one pending action. When its dialog
/// opens with an identifier, the next effect stores the pending action that
/// ties that identifier to the command's user and channel, under a non-nil
/// identifier of its own.
pub proof fn blank_create_stores_no_record(
    cmd: SlackCommand,
    store: TemplateStore,
    evs: Seq<EventView>,
    ids: Seq<u128>,
)
    requires
        is_blank(cmd.text@),
        ids.len() == evs.len() + 1,
        all_v4(ids),
    ensures
        evs.len() > 0 ==> ids[1] != 0,
        count(create_effects(cmd, store, evs, ids), todo_inserts()) == 0,
        count(create_effects(cmd, store, evs, ids), action_inserts()) <= 1,
        lookup(store.modals.deep_view(), "create"@) is Some && evs.len() > 0
            && evs[0] is ModalOpened && evs[0]->ModalOpened_0 is Some ==> create_effects(
            cmd,
            store,
            evs,
            ids,
        )[1] == EffectView::InsertAction(
            ActionView {
                id: ids[1],
                slack_id: evs[0]->ModalOpened_0->0,
                slack_user: cmd.user_id@,
                slack_channel: cmd.channel_id@,
                kind: ActionType::CreateModal,
            },
        ),
{
    if evs.len() > 0 {
        v4_is_not_nil(ids[1]);
    }
    let first = create_start(cmd, store, ids[0]);
    let rest = ids.drop_first();
    let run = create_run(first.0, evs, store, rest);
    count_cons(first.1, run, todo_inserts());
    count_cons(first.1, run, action_inserts());
    if first.0 is Finished {
        create_tail_quiet(first.0, evs, store, rest, todo_inserts());
        create_tail_quiet(first.0, evs, store, rest, action_inserts());
    } else if evs.len() > 0 {
        let next = create_next(first.0, evs[0], store, rest[0]);
        let tail = create_run(next.0, evs.drop_first(), store, rest.drop_first());
        closing_is_finish(evs[0]);
        create_tail_quiet(next.0, evs.drop_first(), store, rest.drop_first(), todo_inserts());
        create_tail_quiet(next.0, evs.drop_first(), store, rest.drop_first(), action_inserts());
        count_cons(next.1, tail, todo_inserts());
        count_cons(next.1, tail, action_inserts());
    }
}

/// A create command whose text is not blank stores exactly one record, with
/// that text as title, no description, not completed, owned by the invoking
/// user, under a non-nil identifier; once that write succeeds (and the `created` template exists) it posts
/// exactly one ephemeral reply to the command's response URL.
pub proof fn direct_create_stores_one_record(
    cmd: SlackCommand,
    store: TemplateStore,
    evs: Seq<EventView>,
    ids: Seq<u128>,
)
    requires
        !is_blank(cmd.text@),
        ids.len() == evs.len() + 1,
        all_v4(ids),
    ensures
        ids[0] != 0,
        create_effects(cmd, store, evs, ids)[0] == EffectView::InsertTodo(
            TodoView {
                id: ids[0],
                title: cmd.text@,
                description: None,
                completed: false,
                slack_user: cmd.user_id@,
            },
        ),
        count(create_effects(cmd, store, evs, ids), todo_inserts()) == 1,
        count(create_effects(cmd, store, evs, ids), action_inserts()) == 0,
        count(create_effects(cmd, store, evs, ids), webhook_posts()) <= 1,
        lookup(store.blocks.deep_view(), "created"@) is Some && evs.len() > 0 && evs[0]
            is Done ==> count(create_effects(cmd, store, evs, ids), webhook_posts()) == 1
            && create_effects(cmd, store, evs, ids)[1] is PostWebhook && create_effects(
            cmd,
            store,
            evs,
            ids,
        )[1]->PostWebhook_url == cmd.response_url@ && create_effects(cmd, store, evs, ids)[1]->PostWebhook_ephemeral,
{
    v4_is_not_nil(ids[0]);
    let first = create_start(cmd, store, ids[0]);
    let rest = ids.drop_first();
    let run = create_run(first.0, evs, store, rest);
    count_cons(first.1, run, todo_inserts());
    count_cons(first.1, run, action_inserts());
    count_cons(first.1, run, webhook_posts());
    if evs.len() > 0 {
        let next = create_next(first.0, evs[0], store, rest[0]);
        let tail = create_run(next.0, evs.drop_first(), store, rest.drop_first());
        closing_is_finish(evs[0]);
        create_tail_quiet(next.0, evs.drop_first(), store, rest.drop_first(), todo_inserts());
        create_tail_quiet(next.0, evs.drop_first(), store, rest.drop_first(), action_inserts());
        create_tail_quiet(next.0, evs.drop_first(), store, rest.drop_first(), webhook_posts());
        count_cons(next.1, tail, todo_inserts());
        count_cons(next.1, tail, action_inserts());
        count_cons(next.1, tail, webhook_posts());
    }
}

/// A submission for which no pending action is found fails with `NotFound`
/// and neither stores nor deletes anything.
pub proof fn unknown_submission_writes_nothing(
    data: SlackInteractionData,
    store: TemplateStore,
    evs: Seq<EventView>,
    ids: Seq<u128>,
)
    requires
        data.kind@ == "view_submission"@,
        evs.len() > 0,
        evs[0] == EventView::Failed(Failure::NotFound),
        ids.len() == evs.len(),
    ensures
        interaction_effects(data, store, evs, ids)[0] == EffectView::FetchAction(data.view.id@),
        interaction_effects(data, store, evs, ids)[1] == EffectView::Finish(
            Err(Failure::NotFound),
        ),
        count(interaction_effects(data, store, evs, ids), store_writes()) == 0,
{
    let first = interaction_start(data);
    let run = interaction_run(first.0, evs, store, ids);
    let next = interaction_next(first.0, evs[0], store, ids[0]);
    let tail = interaction_run(next.0, evs.drop_first(), store, ids.drop_first());
    interaction_tail_quiet(next.0, evs.drop_first(), store, ids.drop_first(), store_writes());
    count_cons(next.1, tail, store_writes());
    count_cons(first.1, run, store_writes());
}

/// A submission whose pending action is found first deletes that action and
/// then, once the delete succeeds and the title input is present, stores
/// exactly one record: owned by the action's recorded user, titled and
/// described by the submitted inputs, under a non-nil identifier.
pub proof fn submission_moves_action_to_record(
    data: SlackInteractionData,
    store: TemplateStore,
    evs: Seq<EventView>,
    ids: Seq<u128>,
)
    requires
        data.kind@ == "view_submission"@,
        data.view.title is Some,
        evs.len() >= 2,
        evs[0] is ActionFound,
        evs[1] is Done,
        ids.len() == evs.len(),
        all_v4(ids),
    ensures
        ids[1] != 0,
        interaction_effects(data, store, evs, ids)[1] == EffectView::DeleteAction(
            evs[0]->ActionFound_0,
        ),
        interaction_effects(data, store, evs, ids)[2] == EffectView::InsertTodo(
            TodoView {
                id: ids[1],
                title: data.view.title->0@,
                description: data.view.description.deep_view(),
                completed: false,
                slack_user: evs[0]->ActionFound_0.slack_user,
            },
        ),
        count(interaction_effects(data, store, evs, ids), action_deletes()) == 1,
        count(interaction_effects(data, store, evs, ids), todo_inserts()) == 1,
{
    v4_is_not_nil(ids[1]);
    let first = interaction_start(data);
    let run = interaction_run(first.0, evs, store, ids);
    let n1 = interaction_next(first.0, evs[0], store, ids[0]);
    let evs1 = evs.drop_first();
    let ids1 = ids.drop_first();
    let run1 = interaction_run(n1.0, evs1, store, ids1);
    let n2 = interaction_next(n1.0, evs1[0], store, ids1[0]);
    let evs2 = evs1.drop_first();
    let ids2 = ids1.drop_first();
    let run2 = interaction_run(n2.0, evs2, store, ids2);
    count_cons(first.1, run, action_deletes());
    count_cons(first.1, run, todo_inserts());
    count_cons(n1.1, run1, action_deletes());
    count_cons(n1.1, run1, todo_inserts());
    count_cons(n2.1, run2, action_deletes());
    count_cons(n2.1, run2, todo_inserts());
    if evs2.len() > 0 {
        let n3 = interaction_next(n2.0, evs2[0], store, ids2[0]);
        let run3 = interaction_run(n3.0, evs2.drop_first(), store, ids2.drop_first());
        closing_is_finish(evs2[0]);
        interaction_tail_quiet(n3.0, evs2.drop_first(), store, ids2.drop_first(), action_deletes());
        interaction_tail_quiet(n3.0, evs2.drop_first(), store, ids2.drop_first(), todo_inserts());
        count_cons(n3.1, run3, action_deletes());
        count_cons(n3.1, run3, todo_inserts());
    }
}

/// A list command whose fetch finds no record posts exactly one plain
/// message, telling that none were found for the target, and no blocks
/// message.
pub proof fn empty_list_posts_one_plain_message(
    cmd: SlackCommand,
    store: TemplateStore,
    evs: Seq<EventView>,
)
    requires
        list_target(cmd) is Some,
        evs.len() > 0,
        evs[0] == EventView::TodosFound(Seq::<TodoView>::empty()),
    ensures
        list_effects(cmd, store, evs)[1] == (EffectView::PostMessage {
            text: none_found_text((list_target(cmd)->0).1),
            channel: cmd.channel_id@,
        }),
        count(list_effects(cmd, store, evs), plain_posts()) == 1,
        count(list_effects(cmd, store, evs), blocks_posts()) == 0,
{
    let first = list_start(cmd);
    let run = list_run(first.0, evs, store);
    let next = list_next(first.0, evs[0], store);
    let tail = list_run(next.0, evs.drop_first(), store);
    list_tail_quiet(next.0, evs.drop_first(), store, plain_posts());
    list_tail_quiet(next.0, evs.drop_first(), store, blocks_posts());
    count_cons(next.1, tail, plain_posts());
    count_cons(next.1, tail, blocks_posts());
    count_cons(first.1, run, plain_posts());
    count_cons(first.1, run, blocks_posts());
}

/// A list command whose fetch finds one or more records posts exactly one
/// blocks message and no plain message, where the templates render; that
/// message lists every record found, each rendered through the `todo`
/// template.
pub proof fn found_list_posts_one_blocks_message(
    cmd: SlackCommand,
    store: TemplateStore,
    evs: Seq<EventView>,
    todos: Seq<TodoView>,
)
    requires
        list_target(cmd) is Some,
        evs.len() > 0,
        evs[0] == EventView::TodosFound(todos),
        todos.len() > 0,
        list_blocks(store, (list_target(cmd)->0).1, todos) is Ok,
    ensures
        list_effects(cmd, store, evs)[1] == (EffectView::PostBlocks {
            channel: cmd.channel_id@,
            blocks: list_blocks(store, (list_target(cmd)->0).1, todos)->Ok_0,
        }),
        count(list_effects(cmd, store, evs), blocks_posts()) == 1,
        count(list_effects(cmd, store, evs), plain_posts()) == 0,
{
    let first = list_start(cmd);
    let run = list_run(first.0, evs, store);
    let next = list_next(first.0, evs[0], store);
    let tail = list_run(next.0, evs.drop_first(), store);
    list_tail_quiet(next.0, evs.drop_first(), store, plain_posts());
    list_tail_quiet(next.0, evs.drop_first(), store, blocks_posts());
    count_cons(next.1, tail, plain_posts());
    count_cons(next.1, tail, blocks_posts());
    count_cons(first.1, run, plain_posts());
    count_cons(first.1, run, blocks_posts());
}

} // verus!
