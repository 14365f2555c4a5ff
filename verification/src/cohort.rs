//! The cohort workflow: one invocation creates or reuses the cohort's role,
//! then creates the cohort's channel, and reports the outcome.
//!
//! The workflow is a state machine. It is handed what happened (an
//! [`Event`]), moves to its next [`State`] and answers with the requests to
//! carry out, in order (a list of [`Action`]). Whoever drives it performs the
//! requests and hands back the platform's answer to the last one. Notices are
//! sent on a best-effort basis: no event reports their delivery, so a notice
//! that cannot be delivered never changes the course of the workflow.
//!
//! Naming convention: for the input `art-club` the role is named
//! `cohort: art-club` and the channel `art-club`.

use crate::channels::{
    provision, provision_channel, Channel, ChannelRequest, ChannelRequestView, ChannelView,
};
use crate::errors::{CohortError, CohortErrorView};
use crate::roles::{
    resolution, resolve_role, role_views, Role, RoleResolution, RoleResolutionView, RoleView,
    DEFAULT_ROLE_COLOUR,
};
use crate::text::{channel_mention, push_channel, push_role, push_text, role_mention};
use vstd::prelude::*;
use vstd::string::StringExecFns;

verus! {

/// What an installation of the bot is configured with.
#[derive(Clone, Copy, Debug, PartialEq, Eq, Structural)]
pub struct Config {
    /// The category under which cohort channels are created.
    pub category_id: u64,
    /// The role that an invoker must hold to run moderator commands.
    pub mod_role_id: u64,
}

/// What precedes the input in the name of a cohort's role.
pub open spec fn role_name_prefix() -> Seq<char> {
    "cohort: "@
}

/// The notice that acknowledges an invocation.
pub open spec fn acknowledgement() -> Seq<char> {
    "Spinning up Adventure Club..."@
}

/// The notice sent for every failure. It says nothing about the cause.
pub open spec fn failure_notice() -> Seq<char> {
    "Failed to create cohort"@
}

/// The notice sent where the role of a cohort exists already.
pub open spec fn reuse_notice(role_name: Seq<char>) -> Seq<char> {
    role_name + " Role already exists!"@
}

/// The reply that confirms a cohort, mentioning its channel and its role.
pub open spec fn confirmation(channel_id: u64, role_id: u64) -> Seq<char> {
    "Successfully created club channel: "@ + channel_mention(channel_id)
        + "! Feel free to add users with the "@ + role_mention(role_id) + " role."@
}

/// Derives the names of a cohort from the input: the role's name, which is
/// the input behind the prefix `cohort: `, and the channel's name, which is
/// the input itself.
pub fn gen_names(input_str: String) -> (names: (String, String))
    ensures
        names.0@ == role_name_prefix() + input_str@,
        names.1@ == input_str@,
        names.0@ == role_name_prefix() + names.1@,
{
    let mut cohort_name: String = "cohort: ".to_owned();
    cohort_name.append(input_str.as_str());
    (cohort_name, input_str)
}

/// Composes the reply that confirms a cohort.
pub fn confirmation_message(channel_id: u64, role_id: u64) -> (text: String)
    ensures
        text@ == confirmation(channel_id, role_id),
{
    let text = push_text(String::new(), "Successfully created club channel: ");
    let text = push_channel(text, channel_id);
    let text = push_text(text, "! Feel free to add users with the ");
    let text = push_role(text, role_id);
    push_text(text, " role.")
}

/// Composes the notice sent where the role of a cohort exists already.
pub fn reuse_message(role_name: &str) -> (text: String)
    ensures
        text@ == reuse_notice(role_name@),
{
    let mut text: String = role_name.to_owned();
    text.append(" Role already exists!");
    text
}

/// Where a workflow stands.
#[derive(Debug, PartialEq, Eq)]
pub enum State {
    /// Nothing has happened yet.
    Start,
    /// The names are derived; the guild's roles are awaited.
    ResolvingRole { role_name: String, channel_name: String },
    /// No role had the name; the platform's answer to its creation is
    /// awaited.
    CreatingRole { channel_name: String },
    /// The role is there, reused or created; the guild's roles are awaited
    /// once more, for the default role.
    RoleResolved { role: Role, channel_name: String },
    /// The channel's creation was asked for; the platform's answer is
    /// awaited.
    ChannelAttempted { role: Role },
    /// The cohort exists and was confirmed to the requester.
    Succeeded { role: Role, channel: Channel },
    /// The workflow gave up and told the requester so.
    Failed { error: CohortError },
}

/// Mathematical value of a [`State`].
pub enum StateView {
    Start,
    ResolvingRole { role_name: Seq<char>, channel_name: Seq<char> },
    CreatingRole { channel_name: Seq<char> },
    RoleResolved { role: RoleView, channel_name: Seq<char> },
    ChannelAttempted { role: RoleView },
    Succeeded { role: RoleView, channel: ChannelView },
    Failed { error: CohortErrorView },
}

impl View for State {
    type V = StateView;

    open spec fn view(&self) -> StateView {
        match self {
            State::Start => StateView::Start,
            State::ResolvingRole { role_name, channel_name } => StateView::ResolvingRole {
                role_name: role_name@,
                channel_name: channel_name@,
            },
            State::CreatingRole { channel_name } => StateView::CreatingRole {
                channel_name: channel_name@,
            },
            State::RoleResolved { role, channel_name } => StateView::RoleResolved {
                role: role@,
                channel_name: channel_name@,
            },
            State::ChannelAttempted { role } => StateView::ChannelAttempted { role: role@ },
            State::Succeeded { role, channel } => StateView::Succeeded {
                role: role@,
                channel: channel@,
            },
            State::Failed { error } => StateView::Failed { error: error@ },
        }
    }
}

impl StateView {
    /// Whether the workflow has come to its end.
    pub open spec fn is_terminal(self) -> bool {
        self is Succeeded || self is Failed
    }
}

impl State {
    /// Whether the workflow has come to its end.
    pub fn is_terminal(&self) -> (terminal: bool)
        ensures
            terminal == self@.is_terminal(),
    {
        match self {
            State::Succeeded { .. } => true,
            State::Failed { .. } => true,
            _ => false,
        }
    }
}

/// What happened outside the workflow.
#[derive(Debug)]
#[allow(inconsistent_fields)]
pub enum Event {
    /// The command was invoked, with or without its argument.
    Invoked { argument: Option<String> },
    /// The guild's roles were read.
    Roles { roles: Vec<Role> },
    /// The platform answered the creation of a role: the role, or the cause
    /// of the failure.
    RoleCreated { result: Result<Role, String> },
    /// The platform answered the creation of a channel: the channel, or the
    /// cause of the failure.
    ChannelCreated { result: Result<Channel, String> },
}

/// Mathematical value of an [`Event`].
#[allow(inconsistent_fields)]
pub enum EventView {
    Invoked { argument: Option<Seq<char>> },
    Roles { roles: Seq<RoleView> },
    RoleCreated { result: Result<RoleView, Seq<char>> },
    ChannelCreated { result: Result<ChannelView, Seq<char>> },
}

impl View for Event {
    type V = EventView;

    open spec fn view(&self) -> EventView {
        match self {
            Event::Invoked { argument } => EventView::Invoked {
                argument: match argument {
                    Some(input) => Some(input@),
                    None => None,
                },
            },
            Event::Roles { roles } => EventView::Roles { roles: role_views(roles@) },
            Event::RoleCreated { result } => EventView::RoleCreated {
                result: match result {
                    Ok(role) => Ok(role@),
                    Err(cause) => Err(cause@),
                },
            },
            Event::ChannelCreated { result } => EventView::ChannelCreated {
                result: match result {
                    Ok(channel) => Ok(channel@),
                    Err(cause) => Err(cause@),
                },
            },
        }
    }
}

/// A request to whoever drives the workflow.
#[derive(Debug, PartialEq, Eq)]
pub enum Action {
    /// Send a notice to the channel the command came from. Best effort: a
    /// failure to deliver it is logged and nothing else.
    Notify { text: String },
    /// Read the guild's roles and hand them back.
    FetchRoles,
    /// Create a role and hand back the platform's answer.
    CreateRole { name: String, colour: u32 },
    /// Create a channel and hand back the platform's answer.
    CreateChannel { request: ChannelRequest },
    /// Reply to the requester with the outcome.
    Reply { text: String },
}

/// Mathematical value of an [`Action`].
pub enum ActionView {
    Notify { text: Seq<char> },
    FetchRoles,
    CreateRole { name: Seq<char>, colour: u32 },
    CreateChannel { request: ChannelRequestView },
    Reply { text: Seq<char> },
}

impl View for Action {
    type V = ActionView;

    open spec fn view(&self) -> ActionView {
        match self {
            Action::Notify { text } => ActionView::Notify { text: text@ },
            Action::FetchRoles => ActionView::FetchRoles,
            Action::CreateRole { name, colour } => ActionView::CreateRole {
                name: name@,
                colour: *colour,
            },
            Action::CreateChannel { request } => ActionView::CreateChannel { request: request@ },
            Action::Reply { text } => ActionView::Reply { text: text@ },
        }
    }
}

/// The values of a list of actions, in order.
pub open spec fn action_views(actions: Seq<Action>) -> Seq<ActionView> {
    actions.map_values(|action: Action| action@)
}

/// What every failure answers with: the workflow ends, and the requester
/// gets the same notice whatever the cause.
pub open spec fn fail(error: CohortErrorView) -> (StateView, Seq<ActionView>) {
    (StateView::Failed { error }, seq![ActionView::Reply { text: failure_notice() }])
}

/// The transition relation of the workflow: the state that follows, and the
/// requests to carry out, in order. An event that the state does not await
/// changes nothing and asks for nothing; so does every event once the
/// workflow has ended.
pub open spec fn next(config: Config, state: StateView, event: EventView) -> (
    StateView,
    Seq<ActionView>,
) {
    match (state, event) {
        (StateView::Start, EventView::Invoked { argument: None }) => fail(
            CohortErrorView::MissingArgument,
        ),
        (StateView::Start, EventView::Invoked { argument: Some(input) }) => (
            StateView::ResolvingRole {
                role_name: role_name_prefix() + input,
                channel_name: input,
            },
            seq![ActionView::Notify { text: acknowledgement() }, ActionView::FetchRoles],
        ),
        (StateView::ResolvingRole { role_name, channel_name }, EventView::Roles { roles }) => {
            match resolution(roles, role_name, DEFAULT_ROLE_COLOUR) {
                RoleResolutionView::Existing { role } => (
                    StateView::RoleResolved { role, channel_name },
                    seq![
                        ActionView::Notify { text: reuse_notice(role.name) },
                        ActionView::FetchRoles,
                    ],
                ),
                RoleResolutionView::Create { name, colour } => (
                    StateView::CreatingRole { channel_name },
                    seq![ActionView::CreateRole { name, colour }],
                ),
            }
        },
        (StateView::CreatingRole { channel_name }, EventView::RoleCreated { result: Ok(role) }) => (
            StateView::RoleResolved { role, channel_name },
            seq![ActionView::FetchRoles],
        ),
        (StateView::CreatingRole { .. }, EventView::RoleCreated { result: Err(cause) }) => fail(
            CohortErrorView::RoleCreationFailed { cause },
        ),
        (StateView::RoleResolved { role, channel_name }, EventView::Roles { roles }) => {
            match provision(roles, channel_name, config.category_id, role.id) {
                Ok(request) => (
                    StateView::ChannelAttempted { role },
                    seq![ActionView::CreateChannel { request }],
                ),
                Err(error) => fail(error),
            }
        },
        (
            StateView::ChannelAttempted { role },
            EventView::ChannelCreated { result: Ok(channel) },
        ) => (
            StateView::Succeeded { role, channel },
            seq![ActionView::Reply { text: confirmation(channel.id, role.id) }],
        ),
        (
            StateView::ChannelAttempted { .. },
            EventView::ChannelCreated { result: Err(cause) },
        ) => fail(CohortErrorView::ChannelCreationFailed { cause }),
        _ => (state, Seq::empty()),
    }
}

/// Ends the workflow with an error and the notice of failure.
fn give_up(error: CohortError) -> (outcome: (State, Vec<Action>))
    ensures
        (outcome.0@, action_views(outcome.1@)) == fail(error@),
{
    let actions: Vec<Action> = vec![Action::Reply { text: "Failed to create cohort".to_owned() }];
    proof {
        assert(action_views(actions@) =~= seq![ActionView::Reply { text: failure_notice() }]);
    }
    (State::Failed { error }, actions)
}

/// Leaves the state as it is and asks for nothing.
fn stay(state: State) -> (outcome: (State, Vec<Action>))
    ensures
        outcome.0@ == state@,
        action_views(outcome.1@) == Seq::<ActionView>::empty(),
{
    let actions: Vec<Action> = Vec::new();
    proof {
        assert(action_views(actions@) =~= Seq::<ActionView>::empty());
    }
    (state, actions)
}

/// First step: without the argument the workflow fails before anything is
/// asked of the platform; with it, the names are derived, the invocation is
/// acknowledged and the guild's roles are asked for.
fn begin(argument: Option<String>) -> (outcome: (State, Vec<Action>))
    ensures
        forall|config: Config|
            (outcome.0@, action_views(outcome.1@)) == #[trigger] next(
                config,
                StateView::Start,
                (Event::Invoked { argument })@,
            ),
{
    match argument {
        None => give_up(CohortError::MissingArgument),
        Some(input) => {
            let (role_name, channel_name) = gen_names(input);
            let actions: Vec<Action> = vec![
                Action::Notify { text: "Spinning up Adventure Club...".to_owned() },
                Action::FetchRoles,
            ];
            proof {
                assert(action_views(actions@) =~= seq![
                    ActionView::Notify { text: acknowledgement() },
                    ActionView::FetchRoles,
                ]);
            }
            (State::ResolvingRole { role_name, channel_name }, actions)
        },
    }
}

/// Role resolution: reuse the role of that name and say so, or ask for its
/// creation.
fn resolve(role_name: String, channel_name: String, roles: Vec<Role>) -> (outcome: (
    State,
    Vec<Action>,
))
    ensures
        forall|config: Config|
            (outcome.0@, action_views(outcome.1@)) == #[trigger] next(
                config,
                (State::ResolvingRole { role_name, channel_name })@,
                (Event::Roles { roles })@,
            ),
{
    match resolve_role(&roles, role_name.as_str(), DEFAULT_ROLE_COLOUR) {
        RoleResolution::Existing { role } => {
            let actions: Vec<Action> = vec![
                Action::Notify { text: reuse_message(role.name.as_str()) },
                Action::FetchRoles,
            ];
            proof {
                assert(action_views(actions@) =~= seq![
                    ActionView::Notify { text: reuse_notice(role@.name) },
                    ActionView::FetchRoles,
                ]);
            }
            (State::RoleResolved { role, channel_name }, actions)
        },
        RoleResolution::Create { name, colour } => {
            let actions: Vec<Action> = vec![Action::CreateRole { name, colour }];
            proof {
                assert(action_views(actions@) =~= seq![
                    ActionView::CreateRole { name: name@, colour },
                ]);
            }
            (State::CreatingRole { channel_name }, actions)
        },
    }
}

/// After the role's creation: go on with the new role, or give up.
fn role_created(channel_name: String, result: Result<Role, String>) -> (outcome: (
    State,
    Vec<Action>,
))
    ensures
        forall|config: Config|
            (outcome.0@, action_views(outcome.1@)) == #[trigger] next(
                config,
                (State::CreatingRole { channel_name })@,
                (Event::RoleCreated { result })@,
            ),
{
    match result {
        Ok(role) => {
            let actions: Vec<Action> = vec![Action::FetchRoles];
            proof {
                assert(action_views(actions@) =~= seq![ActionView::FetchRoles]);
            }
            (State::RoleResolved { role, channel_name }, actions)
        },
        Err(cause) => give_up(CohortError::RoleCreationFailed { cause }),
    }
}

/// Channel provisioning: ask for the channel, or give up where the guild
/// has no default role.
fn attempt_channel(config: &Config, role: Role, channel_name: String, roles: Vec<Role>) -> (outcome:
    (State, Vec<Action>))
    ensures
        (outcome.0@, action_views(outcome.1@)) == next(
            *config,
            (State::RoleResolved { role, channel_name })@,
            (Event::Roles { roles })@,
        ),
{
    match provision_channel(&roles, channel_name, config.category_id, role.id) {
        Ok(request) => {
            let ghost requested = request@;
            let actions: Vec<Action> = vec![Action::CreateChannel { request }];
            proof {
                assert(action_views(actions@) =~= seq![
                    ActionView::CreateChannel { request: requested },
                ]);
            }
            (State::ChannelAttempted { role }, actions)
        },
        Err(error) => give_up(error),
    }
}

/// After the channel's creation: confirm the cohort, or give up. The role
/// stays as it is either way.
fn channel_created(role: Role, result: Result<Channel, String>) -> (outcome: (State, Vec<Action>))
    ensures
        forall|config: Config|
            (outcome.0@, action_views(outcome.1@)) == #[trigger] next(
                config,
                (State::ChannelAttempted { role })@,
                (Event::ChannelCreated { result })@,
            ),
{
    match result {
        Ok(channel) => {
            let actions: Vec<Action> = vec![
                Action::Reply { text: confirmation_message(channel.id, role.id) },
            ];
            proof {
                assert(action_views(actions@) =~= seq![
                    ActionView::Reply { text: confirmation(channel@.id, role@.id) },
                ]);
            }
            (State::Succeeded { role, channel }, actions)
        },
        Err(cause) => give_up(CohortError::ChannelCreationFailed { cause }),
    }
}

/// One invocation of the cohort command, from its start to its end.
#[derive(Debug)]
pub struct CohortWorkflow {
    pub config: Config,
    pub state: State,
}

impl CohortWorkflow {
    /// A workflow that has not started, for the given configuration.
    pub fn new(config: Config) -> (workflow: CohortWorkflow)
        ensures
            workflow.config == config,
            workflow.state@ == StateView::Start,
    {
        CohortWorkflow { config, state: State::Start }
    }

    /// Takes one event: moves to the next state and returns the requests to
    /// carry out, in order. The answer to the last request, where it has
    /// one, is the next event.
    pub fn step(&mut self, event: Event) -> (actions: Vec<Action>)
        ensures
            final(self).config == old(self).config,
            (final(self).state@, action_views(actions@)) == next(
                old(self).config,
                old(self).state@,
                event@,
            ),
    {
        let mut state = State::Start;
        std::mem::swap(&mut self.state, &mut state);
        let (state, actions) = advance(&self.config, state, event);
        self.state = state;
        actions
    }
}

/// The transition of the workflow on owned values.
pub fn advance(config: &Config, state: State, event: Event) -> (outcome: (State, Vec<Action>))
    ensures
        (outcome.0@, action_views(outcome.1@)) == next(*config, state@, event@),
{
    match state {
        State::Start => match event {
            Event::Invoked { argument } => begin(argument),
            _ => stay(State::Start),
        },
        State::ResolvingRole { role_name, channel_name } => match event {
            Event::Roles { roles } => resolve(role_name, channel_name, roles),
            _ => stay(State::ResolvingRole { role_name, channel_name }),
        },
        State::CreatingRole { channel_name } => match event {
            Event::RoleCreated { result } => role_created(channel_name, result),
            _ => stay(State::CreatingRole { channel_name }),
        },
        State::RoleResolved { role, channel_name } => match event {
            Event::Roles { roles } => attempt_channel(config, role, channel_name, roles),
            _ => stay(State::RoleResolved { role, channel_name }),
        },
        State::ChannelAttempted { role } => match event {
            Event::ChannelCreated { result } => channel_created(role, result),
            _ => stay(State::ChannelAttempted { role }),
        },
        State::Succeeded { role, channel } => stay(State::Succeeded { role, channel }),
        State::Failed { error } => stay(State::Failed { error }),
    }
}

} // verus!
