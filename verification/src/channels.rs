//! Channels, and the request that provisions the channel of a cohort.

use crate::errors::{CohortError, CohortErrorView};
use crate::permissions::{
    cohort_overwrites, cohort_overwrites_are_consistent, consistent,
    mute_users_without_role_permset, PermissionOverwrite,
};
use crate::roles::{
    everyone_name, find_role, get_everyone_role, has_role_named, role_views, Role, RoleView,
};
use vstd::prelude::*;

verus! {

/// The kind of a channel.
#[derive(Clone, Copy, Debug, PartialEq, Eq, Structural)]
pub enum ChannelKind {
    /// An ordinary channel for text messages.
    Text,
    /// A voice channel.
    Voice,
    /// A container that groups channels.
    Category,
}

/// A channel as the platform reports it.
#[derive(Debug, PartialEq, Eq)]
pub struct Channel {
    /// Identifier assigned by the platform.
    pub id: u64,
    /// Display name.
    pub name: String,
    /// The category the channel sits under, if any.
    pub category_id: Option<u64>,
    /// The overwrites of the channel, in the order they are applied.
    pub overwrites: Vec<PermissionOverwrite>,
}

/// Mathematical value of a [`Channel`].
pub struct ChannelView {
    pub id: u64,
    pub name: Seq<char>,
    pub category_id: Option<u64>,
    pub overwrites: Seq<PermissionOverwrite>,
}

impl View for Channel {
    type V = ChannelView;

    open spec fn view(&self) -> ChannelView {
        ChannelView {
            id: self.id,
            name: self.name@,
            category_id: self.category_id,
            overwrites: self.overwrites@,
        }
    }
}

/// What the platform is asked to create. The overwrites are part of the
/// request, so they apply from the moment the channel exists.
#[derive(Debug, PartialEq, Eq)]
pub struct ChannelRequest {
    pub name: String,
    pub category_id: u64,
    pub kind: ChannelKind,
    pub overwrites: Vec<PermissionOverwrite>,
}

/// Mathematical value of a [`ChannelRequest`].
pub struct ChannelRequestView {
    pub name: Seq<char>,
    pub category_id: u64,
    pub kind: ChannelKind,
    pub overwrites: Seq<PermissionOverwrite>,
}

impl View for ChannelRequest {
    type V = ChannelRequestView;

    open spec fn view(&self) -> ChannelRequestView {
        ChannelRequestView {
            name: self.name@,
            category_id: self.category_id,
            kind: self.kind,
            overwrites: self.overwrites@,
        }
    }
}

impl ChannelRequestView {
    /// The request grants and withholds no flag at once: not within one
    /// overwrite, and not across its overwrites for the same subject.
    pub open spec fn well_formed(self) -> bool {
        &&& forall|i: int|
            0 <= i < self.overwrites.len() ==> (#[trigger] self.overwrites[i]).well_formed()
        &&& consistent(self.overwrites)
    }
}

/// The value of the outcome of provisioning.
pub open spec fn provision_view(outcome: Result<ChannelRequest, CohortError>) -> Result<
    ChannelRequestView,
    CohortErrorView,
> {
    match outcome {
        Ok(request) => Ok(request@),
        Err(error) => Err(error@),
    }
}

/// The rule of provisioning: a text channel of the given name under the
/// given category, writable by the cohort role and read-only for the default
/// role. It needs the guild's default role and fails where there is none.
/// Nothing is checked about channels that already carry the name.
pub open spec fn provision(
    roles: Seq<RoleView>,
    name: Seq<char>,
    category_id: u64,
    role_id: u64,
) -> Result<ChannelRequestView, CohortErrorView> {
    match find_role(roles, everyone_name()) {
        Some(everyone) => Ok(
            ChannelRequestView {
                name,
                category_id,
                kind: ChannelKind::Text,
                overwrites: cohort_overwrites(role_id, everyone.id),
            },
        ),
        None => Err(CohortErrorView::EveryoneRoleMissing),
    }
}

/// Whatever provisioning asks for is well formed.
pub proof fn lemma_provision_well_formed(
    roles: Seq<RoleView>,
    name: Seq<char>,
    category_id: u64,
    role_id: u64,
)
    ensures
        provision(roles, name, category_id, role_id) matches Ok(request) ==> request.well_formed(),
{
    if let Some(everyone) = find_role(roles, everyone_name()) {
        cohort_overwrites_are_consistent(role_id, everyone.id);
    }
}

/// Prepares the creation of a cohort's channel from the guild's roles: the
/// request for it, or `EveryoneRoleMissing` where the guild has no default
/// role.
pub fn provision_channel(roles: &Vec<Role>, name: String, category_id: u64, role_id: u64) -> (outcome:
    Result<ChannelRequest, CohortError>)
    ensures
        provision_view(outcome) == provision(role_views(roles@), name@, category_id, role_id),
        outcome is Ok <==> has_role_named(role_views(roles@), everyone_name()),
        outcome matches Ok(request) ==> request@.well_formed(),
{
    proof {
        lemma_provision_well_formed(role_views(roles@), name@, category_id, role_id);
    }
    match get_everyone_role(roles) {
        Some(everyone) => Ok(
            ChannelRequest {
                name,
                category_id,
                kind: ChannelKind::Text,
                overwrites: mute_users_without_role_permset(role_id, everyone.id),
            },
        ),
        None => Err(CohortError::EveryoneRoleMissing),
    }
}

} // verus!
