use vstd::prelude::*;

verus! {

/// The body of a request that posts `blocks` to `user` alone in `channel`.
pub open spec fn ephemeral_body_text(blocks: Seq<char>, channel: Seq<char>, user: Seq<char>) -> Seq<
    char,
> {
    "{\"blocks\": "@ + blocks + ", \"channel\": \""@ + channel + "\", \"user\": \""@ + user
        + "\"}"@
}

/// The body of a request that opens the dialog `view` for `trigger`.
pub open spec fn open_modal_body_text(trigger: Seq<char>, view: Seq<char>) -> Seq<char> {
    "{\"trigger_id\": \""@ + trigger + "\", \"view\": "@ + view + "}"@
}

/// The request body that posts `blocks` to `user` alone in `channel`; the
/// blocks are inserted as they stand, as JSON.
pub fn ephemeral_body(blocks: &str, channel: &str, user: &str) -> (r: String)
    ensures
        r@ == ephemeral_body_text(blocks@, channel@, user@),
{
    let mut r = String::new();
    r.push_str("{\"blocks\": ");
    r.push_str(blocks);
    r.push_str(", \"channel\": \"");
    r.push_str(channel);
    r.push_str("\", \"user\": \"");
    r.push_str(user);
    r.push_str("\"}");
    assert(r@ =~= ephemeral_body_text(blocks@, channel@, user@));
    r
}

/// The request body that opens the dialog `view` for `trigger`; the view is
/// inserted as it stands, as JSON.
pub fn open_modal_body(trigger: &str, view: &str) -> (r: String)
    ensures
        r@ == open_modal_body_text(trigger@, view@),
{
    let mut r = String::new();
    r.push_str("{\"trigger_id\": \"");
    r.push_str(trigger);
    r.push_str("\", \"view\": ");
    r.push_str(view);
    r.push_str("}");
    assert(r@ =~= open_modal_body_text(trigger@, view@));
    r
}

/// Whether a platform response envelope reports success: its `ok` member is
/// the boolean `true`; absent or of another type counts as failure.
pub fn envelope_ok(ok: Option<bool>) -> (r: bool)
    ensures
        r == (ok == Some(true)),
{
    match ok {
        Some(b) => b,
        None => false,
    }
}

} // verus!
