use vstd::prelude::*;

verus! {

/// A slash command as the chat platform posts it.
pub struct SlackCommand {
    pub team_id: String,
    pub team_domain: String,
    pub channel_id: String,
    pub user_id: String,
    pub user_name: String,
    pub command: String,
    pub text: String,
    pub response_url: String,
    pub trigger_id: String,
    pub api_app_id: String,
}

/// The user who interacted with a dialog.
pub struct SlackInteractionUser {
    pub username: String,
    pub name: String,
    pub id: String,
    pub team_id: String,
}

/// The workspace an interaction came from.
pub struct SlackInteractionTeam {
    pub domain: String,
    pub id: String,
}

/// A submitted dialog view: its identifiers, and the values entered in its
/// title and description inputs, where present.
pub struct SlackInteractionView {
    pub id: String,
    pub kind: String,
    pub team_id: String,
    pub private_metadata: String,
    pub callback_id: String,
    pub title: Option<String>,
    pub description: Option<String>,
}

/// An interaction event.
pub struct SlackInteractionData {
    pub kind: String,
    pub user: SlackInteractionUser,
    pub team: SlackInteractionTeam,
    pub api_app_id: String,
    pub trigger_id: String,
    pub token: String,
    pub view: SlackInteractionView,
}

/// The form that carries an interaction event as JSON text.
pub struct SlackInteraction {
    pub payload: String,
}

} // verus!
