//! What holds of every run of the cohort workflow.

use crate::channels::{
    lemma_provision_well_formed, ChannelKind, ChannelRequestView, ChannelView,
};
use crate::cohort::{
    acknowledgement, confirmation, failure_notice, next, reuse_notice, role_name_prefix,
    ActionView, Config, EventView, StateView,
};
use crate::errors::CohortErrorView;
use crate::permissions::{
    cohort_overwrites, OverwriteSubject, PermissionOverwrite, SEND_MESSAGES,
};
use crate::roles::{everyone_name, find_role, RoleView, DEFAULT_ROLE_COLOUR};
use vstd::prelude::*;

verus! {

/// Runs the workflow from a state through a list of events: the state it
/// reaches, and all the requests it made on the way, in order.
pub open spec fn run(config: Config, state: StateView, events: Seq<EventView>) -> (
    StateView,
    Seq<ActionView>,
)
    decreases events.len(),
{
    if events.len() == 0 {
        (state, Seq::empty())
    } else {
        let (reached, asked) = run(config, state, events.drop_last());
        let (last, more) = next(config, reached, events.last());
        (last, asked + more)
    }
}

/// Whether a request asks something of the guild: reading its roles,
/// creating a role or creating a channel. Notices and replies do not.
pub open spec fn touches_guild(action: ActionView) -> bool {
    action is FetchRoles || action is CreateRole || action is CreateChannel
}

/// How many of the requests create a role.
pub open spec fn role_creations(actions: Seq<ActionView>) -> nat
    decreases actions.len(),
{
    if actions.len() == 0 {
        0
    } else {
        role_creations(actions.drop_last()) + if actions.last() is CreateRole {
            1nat
        } else {
            0nat
        }
    }
}

/// How many of the requests create a channel.
pub open spec fn channel_creations(actions: Seq<ActionView>) -> nat
    decreases actions.len(),
{
    if actions.len() == 0 {
        0
    } else {
        channel_creations(actions.drop_last()) + if actions.last() is CreateChannel {
            1nat
        } else {
            0nat
        }
    }
}

/// How far a state is along the workflow.
pub open spec fn progress(state: StateView) -> nat {
    match state {
        StateView::Start => 0,
        StateView::ResolvingRole { .. } => 1,
        StateView::CreatingRole { .. } => 2,
        StateView::RoleResolved { .. } => 3,
        StateView::ChannelAttempted { .. } => 4,
        StateView::Succeeded { .. } => 5,
        StateView::Failed { .. } => 5,
    }
}

/// Running one more event is running the events before it, then one step.
pub proof fn lemma_run_push(
    config: Config,
    state: StateView,
    events: Seq<EventView>,
    event: EventView,
)
    ensures
        run(config, state, events.push(event)) == ({
            let (reached, asked) = run(config, state, events);
            let (last, more) = next(config, reached, event);
            (last, asked + more)
        }),
{
    assert(events.push(event).drop_last() =~= events);
}

/// Running no event changes nothing; running one event is one step.
pub proof fn lemma_run_one(config: Config, state: StateView, event: EventView)
    ensures
        run(config, state, Seq::empty()) == (state, Seq::<ActionView>::empty()),
        run(config, state, seq![event]) == next(config, state, event),
{
    lemma_run_push(config, state, Seq::empty(), event);
    assert(Seq::<EventView>::empty().push(event) =~= seq![event]);
    assert(Seq::<ActionView>::empty() + next(config, state, event).1 =~= next(
        config,
        state,
        event,
    ).1);
}

/// Running two lists of events one after the other is running their
/// concatenation.
pub proof fn lemma_run_concat(
    config: Config,
    state: StateView,
    first: Seq<EventView>,
    second: Seq<EventView>,
)
    ensures
        run(config, state, first + second) == ({
            let (reached, asked) = run(config, state, first);
            let (last, more) = run(config, reached, second);
            (last, asked + more)
        }),
    decreases second.len(),
{
    let (reached, asked) = run(config, state, first);
    if second.len() == 0 {
        assert(first + second =~= first);
        assert(asked + Seq::<ActionView>::empty() =~= asked);
    } else {
        lemma_run_concat(config, state, first, second.drop_last());
        assert((first + second).drop_last() =~= first + second.drop_last());
        assert((first + second).last() == second.last());
        let (middle, some) = run(config, reached, second.drop_last());
        let (last, more) = next(config, middle, second.last());
        assert(asked + (some + more) =~= (asked + some) + more);
    }
}

/// A workflow that has ended stays where it is and asks for nothing more,
/// whatever happens.
pub proof fn finished_workflow_ignores_events(
    config: Config,
    state: StateView,
    events: Seq<EventView>,
)
    requires
        state.is_terminal(),
    ensures
        run(config, state, events) == (state, Seq::<ActionView>::empty()),
    decreases events.len(),
{
    if events.len() > 0 {
        finished_workflow_ignores_events(config, state, events.drop_last());
        assert(Seq::<ActionView>::empty() + Seq::<ActionView>::empty() =~= Seq::<
            ActionView,
        >::empty());
    }
}

/// What a step asks for ends with the request whose answer it awaits. Only
/// the last request of a step asks something of the guild, and it does so
/// exactly when the workflow goes on; a step that asks for nothing leaves the
/// state as it was.
pub proof fn requests_end_with_the_awaited_one(config: Config, state: StateView, event: EventView)
    ensures
        ({
            let (reached, asked) = next(config, state, event);
            &&& forall|i: int| 0 <= i < asked.len() - 1 ==> !touches_guild(#[trigger] asked[i])
            &&& asked.len() > 0 ==> (touches_guild(asked.last()) <==> !reached.is_terminal())
            &&& asked.len() == 0 ==> reached == state
        }),
{
}

/// Every failure is reported in the same words. Whenever a step ends the
/// workflow in failure, its one request is the reply with the notice of
/// failure, which does not depend on the cause.
pub proof fn every_failure_sends_the_same_notice(
    config: Config,
    state: StateView,
    event: EventView,
)
    requires
        !(state is Failed),
        next(config, state, event).0 is Failed,
    ensures
        next(config, state, event).1 == seq![ActionView::Reply { text: failure_notice() }],
{
}

/// An invocation without its argument fails at once with `MissingArgument`.
/// The requester is told so, and nothing is asked of the guild, neither then
/// nor later.
pub proof fn missing_argument_fails_at_once(config: Config, later: Seq<EventView>)
    ensures
        ({
            let (reached, asked) = run(
                config,
                StateView::Start,
                seq![EventView::Invoked { argument: None }] + later,
            );
            &&& reached == StateView::Failed { error: CohortErrorView::MissingArgument }
            &&& asked == seq![ActionView::Reply { text: failure_notice() }]
            &&& forall|i: int| 0 <= i < asked.len() ==> !touches_guild(#[trigger] asked[i])
        }),
{
    let invoked = EventView::Invoked { argument: None };
    let failed = StateView::Failed { error: CohortErrorView::MissingArgument };
    let reply = seq![ActionView::Reply { text: failure_notice() }];
    lemma_run_one(config, StateView::Start, invoked);
    lemma_run_concat(config, StateView::Start, seq![invoked], later);
    finished_workflow_ignores_events(config, failed, later);
    assert(reply + Seq::<ActionView>::empty() =~= reply);
}

/// The events of a whole invocation, in the order the platform answers.
pub open spec fn invocation(
    input: Seq<char>,
    roles: Seq<RoleView>,
    answers: Seq<EventView>,
) -> Seq<EventView> {
    seq![EventView::Invoked { argument: Some(input) }, EventView::Roles { roles }] + answers
}

/// The request for the channel of a cohort.
pub open spec fn channel_request(
    config: Config,
    input: Seq<char>,
    role: RoleView,
    everyone: RoleView,
) -> ActionView {
    ActionView::CreateChannel {
        request: ChannelRequestView {
            name: input,
            category_id: config.category_id,
            kind: ChannelKind::Text,
            overwrites: cohort_overwrites(role.id, everyone.id),
        },
    }
}

/// Where the cohort's role exists already, it is reused: the workflow asks
/// for no role to be created, goes on to create the channel, and ends in
/// success with the role it found.
pub proof fn existing_role_is_reused(
    config: Config,
    input: Seq<char>,
    roles: Seq<RoleView>,
    roles_later: Seq<RoleView>,
    channel: ChannelView,
)
    requires
        find_role(roles, role_name_prefix() + input) is Some,
        find_role(roles_later, everyone_name()) is Some,
    ensures
        ({
            let role = find_role(roles, role_name_prefix() + input).unwrap();
            let everyone = find_role(roles_later, everyone_name()).unwrap();
            let (reached, asked) = run(
                config,
                StateView::Start,
                invocation(
                    input,
                    roles,
                    seq![
                        EventView::Roles { roles: roles_later },
                        EventView::ChannelCreated { result: Ok(channel) },
                    ],
                ),
            );
            &&& reached == StateView::Succeeded { role, channel }
            &&& asked == seq![
                ActionView::Notify { text: acknowledgement() },
                ActionView::FetchRoles,
                ActionView::Notify { text: reuse_notice(role.name) },
                ActionView::FetchRoles,
                channel_request(config, input, role, everyone),
                ActionView::Reply { text: confirmation(channel.id, role.id) },
            ]
            &&& role_creations(asked) == 0
            &&& channel_creations(asked) == 1
        }),
{
    let role = find_role(roles, role_name_prefix() + input).unwrap();
    let everyone = find_role(roles_later, everyone_name()).unwrap();
    let e0 = EventView::Invoked { argument: Some(input) };
    let e1 = EventView::Roles { roles };
    let e2 = EventView::Roles { roles: roles_later };
    let e3 = EventView::ChannelCreated { result: Ok(channel) };
    let events = invocation(input, roles, seq![e2, e3]);
    assert(events =~= Seq::empty().push(e0).push(e1).push(e2).push(e3));
    lemma_run_push(config, StateView::Start, Seq::empty(), e0);
    lemma_run_push(config, StateView::Start, Seq::empty().push(e0), e1);
    lemma_run_push(config, StateView::Start, Seq::empty().push(e0).push(e1), e2);
    lemma_run_push(config, StateView::Start, Seq::empty().push(e0).push(e1).push(e2), e3);
    let asked = run(config, StateView::Start, events).1;
    let expected = seq![
        ActionView::Notify { text: acknowledgement() },
        ActionView::FetchRoles,
        ActionView::Notify { text: reuse_notice(role.name) },
        ActionView::FetchRoles,
        channel_request(config, input, role, everyone),
        ActionView::Reply { text: confirmation(channel.id, role.id) },
    ];
    assert(asked =~= expected);
    lemma_count_six(expected);
}

/// Where the channel cannot be created, the workflow ends in failure with
/// the cause, and the requester gets the notice of failure. The role that
/// was created on the way stays: after the channel's creation was asked for,
/// the one request left is that reply.
pub proof fn failed_channel_leaves_role(
    config: Config,
    input: Seq<char>,
    roles: Seq<RoleView>,
    created: RoleView,
    roles_later: Seq<RoleView>,
    cause: Seq<char>,
)
    requires
        find_role(roles, role_name_prefix() + input) is None,
        find_role(roles_later, everyone_name()) is Some,
    ensures
        ({
            let everyone = find_role(roles_later, everyone_name()).unwrap();
            let (reached, asked) = run(
                config,
                StateView::Start,
                invocation(
                    input,
                    roles,
                    seq![
                        EventView::RoleCreated { result: Ok(created) },
                        EventView::Roles { roles: roles_later },
                        EventView::ChannelCreated { result: Err(cause) },
                    ],
                ),
            );
            &&& reached == StateView::Failed {
                error: CohortErrorView::ChannelCreationFailed { cause },
            }
            &&& asked == seq![
                ActionView::Notify { text: acknowledgement() },
                ActionView::FetchRoles,
                ActionView::CreateRole {
                    name: role_name_prefix() + input,
                    colour: DEFAULT_ROLE_COLOUR,
                },
                ActionView::FetchRoles,
                channel_request(config, input, created, everyone),
                ActionView::Reply { text: failure_notice() },
            ]
        }),
{
    let e0 = EventView::Invoked { argument: Some(input) };
    let e1 = EventView::Roles { roles };
    let e2 = EventView::RoleCreated { result: Ok(created) };
    let e3 = EventView::Roles { roles: roles_later };
    let e4 = EventView::ChannelCreated { result: Err(cause) };
    let events = invocation(input, roles, seq![e2, e3, e4]);
    let none = Seq::<EventView>::empty();
    assert(events =~= none.push(e0).push(e1).push(e2).push(e3).push(e4));
    lemma_run_push(config, StateView::Start, none, e0);
    lemma_run_push(config, StateView::Start, none.push(e0), e1);
    lemma_run_push(config, StateView::Start, none.push(e0).push(e1), e2);
    lemma_run_push(config, StateView::Start, none.push(e0).push(e1).push(e2), e3);
    lemma_run_push(config, StateView::Start, none.push(e0).push(e1).push(e2).push(e3), e4);
    let everyone = find_role(roles_later, everyone_name()).unwrap();
    let asked = run(config, StateView::Start, events).1;
    assert(asked =~= seq![
        ActionView::Notify { text: acknowledgement() },
        ActionView::FetchRoles,
        ActionView::CreateRole { name: role_name_prefix() + input, colour: DEFAULT_ROLE_COLOUR },
        ActionView::FetchRoles,
        channel_request(config, input, created, everyone),
        ActionView::Reply { text: failure_notice() },
    ]);
}

/// Counts over six requests, one by one.
proof fn lemma_count_six(actions: Seq<ActionView>)
    requires
        actions.len() == 6,
    ensures
        role_creations(actions) == (if actions[0] is CreateRole { 1nat } else { 0 })
            + (if actions[1] is CreateRole { 1nat } else { 0 })
            + (if actions[2] is CreateRole { 1nat } else { 0 })
            + (if actions[3] is CreateRole { 1nat } else { 0 })
            + (if actions[4] is CreateRole { 1nat } else { 0 })
            + (if actions[5] is CreateRole { 1nat } else { 0 }),
        channel_creations(actions) == (if actions[0] is CreateChannel { 1nat } else { 0 })
            + (if actions[1] is CreateChannel { 1nat } else { 0 })
            + (if actions[2] is CreateChannel { 1nat } else { 0 })
            + (if actions[3] is CreateChannel { 1nat } else { 0 })
            + (if actions[4] is CreateChannel { 1nat } else { 0 })
            + (if actions[5] is CreateChannel { 1nat } else { 0 }),
{
    reveal_with_fuel(role_creations, 7);
    reveal_with_fuel(channel_creations, 7);
    let a5 = actions.drop_last();
    let a4 = a5.drop_last();
    let a3 = a4.drop_last();
    let a2 = a3.drop_last();
    let a1 = a2.drop_last();
    assert(a1.drop_last().len() == 0);
}

/// Counting the creations of a concatenation adds up.
pub proof fn lemma_creations_add(first: Seq<ActionView>, second: Seq<ActionView>)
    ensures
        role_creations(first + second) == role_creations(first) + role_creations(second),
        channel_creations(first + second) == channel_creations(first) + channel_creations(
            second,
        ),
    decreases second.len(),
{
    if second.len() == 0 {
        assert(first + second =~= first);
    } else {
        lemma_creations_add(first, second.drop_last());
        assert((first + second).drop_last() =~= first + second.drop_last());
        assert((first + second).last() == second.last());
    }
}

/// One step never goes back, and it asks for a creation only on the way
/// past it: for a role when it leaves role resolution, for a channel when it
/// leaves channel provisioning.
pub proof fn lemma_step_progress(config: Config, state: StateView, event: EventView)
    ensures
        ({
            let (reached, asked) = next(config, state, event);
            &&& progress(state) <= progress(reached)
            &&& role_creations(asked) <= 1
            &&& channel_creations(asked) <= 1
            &&& role_creations(asked) == 1 ==> progress(state) <= 1 && progress(reached) >= 2
            &&& channel_creations(asked) == 1 ==> progress(state) <= 3 && progress(reached) >= 4
            &&& progress(state) <= 3 && progress(reached) == 4 ==> channel_creations(asked) == 1
            &&& reached is Succeeded ==> progress(state) >= 4
        }),
{
    reveal_with_fuel(role_creations, 3);
    reveal_with_fuel(channel_creations, 3);
    let (reached, asked) = next(config, state, event);
    if asked.len() == 1 {
        assert(asked.drop_last().len() == 0);
    }
    if asked.len() == 2 {
        assert(asked.drop_last().len() == 1);
        assert(asked.drop_last().drop_last().len() == 0);
    }
}

/// What has been asked for up to a point, given how far the workflow is:
/// never more than one creation of each kind, and none before its turn.
pub proof fn lemma_run_creations(config: Config, events: Seq<EventView>)
    ensures
        ({
            let (reached, asked) = run(config, StateView::Start, events);
            &&& role_creations(asked) <= 1
            &&& channel_creations(asked) <= 1
            &&& progress(reached) <= 1 ==> role_creations(asked) == 0
            &&& progress(reached) <= 3 ==> channel_creations(asked) == 0
            &&& reached is ChannelAttempted || reached is Succeeded ==> channel_creations(asked)
                == 1
        }),
    decreases events.len(),
{
    if events.len() > 0 {
        lemma_run_creations(config, events.drop_last());
        let (middle, before) = run(config, StateView::Start, events.drop_last());
        let (reached, more) = next(config, middle, events.last());
        lemma_step_progress(config, middle, events.last());
        lemma_creations_add(before, more);
    }
}

/// No retries. Whatever the platform answers and in whatever order, one
/// invocation asks at most once for a role to be created and at most once
/// for a channel to be created.
pub proof fn at_most_one_creation_of_each(config: Config, events: Seq<EventView>)
    ensures
        role_creations(run(config, StateView::Start, events).1) <= 1,
        channel_creations(run(config, StateView::Start, events).1) <= 1,
{
    lemma_run_creations(config, events);
}

/// A cohort that was confirmed has its one channel: an invocation that ends
/// in success has asked exactly once for a channel to be created, and at
/// most once for a role.
pub proof fn success_took_one_channel_creation(config: Config, events: Seq<EventView>)
    requires
        run(config, StateView::Start, events).0 is Succeeded,
    ensures
        channel_creations(run(config, StateView::Start, events).1) == 1,
        role_creations(run(config, StateView::Start, events).1) <= 1,
{
    lemma_run_creations(config, events);
}

/// Whenever a channel is asked for, the request grants and withholds no
/// flag at once.
pub proof fn every_channel_request_is_well_formed(
    config: Config,
    state: StateView,
    event: EventView,
    i: int,
)
    requires
        0 <= i < next(config, state, event).1.len(),
    ensures
        next(config, state, event).1[i] matches ActionView::CreateChannel { request }
            ==> request.well_formed(),
{
    if let StateView::RoleResolved { role, channel_name } = state {
        if let EventView::Roles { roles } = event {
            lemma_provision_well_formed(roles, channel_name, config.category_id, role.id);
        }
    }
}

/// The role comes first. A channel is asked for only by a workflow that
/// holds its resolved role, and the request grants that role the right to
/// write.
pub proof fn channel_is_asked_for_the_resolved_role(
    config: Config,
    state: StateView,
    event: EventView,
    i: int,
)
    requires
        0 <= i < next(config, state, event).1.len(),
        next(config, state, event).1[i] is CreateChannel,
    ensures
        state is RoleResolved,
        next(config, state, event).0 == (StateView::ChannelAttempted {
            role: state->RoleResolved_role,
        }),
        next(config, state, event).1[i]->request.overwrites[0] == (PermissionOverwrite {
            subject: OverwriteSubject::Role(state->RoleResolved_role.id),
            allow: SEND_MESSAGES,
            deny: 0,
        }),
{
}

} // verus!
