//! Who may run moderator commands.

use vstd::prelude::*;

verus! {

/// Identifier of the moderator role of the community this bot serves.
pub const MOD_ROLE_ID: u64 = 639531892437286959;

/// Why a moderator command was refused.
#[derive(Clone, Copy, Debug, PartialEq, Eq, Structural)]
pub enum Reason {
    /// The platform reported no member record for the invoker.
    UnknownMember,
    /// The invoker is a member but does not hold the required role.
    MissingRole,
}

/// The text recorded for each reason.
pub open spec fn reason_text(reason: Reason) -> Seq<char> {
    match reason {
        Reason::UnknownMember => "member doesn't exist"@,
        Reason::MissingRole => "user does not have the mod role"@,
    }
}

impl Reason {
    /// The text to record in the log for this refusal.
    pub fn log_message(&self) -> (text: String)
        ensures
            text@ == reason_text(*self),
    {
        match self {
            Reason::UnknownMember => "member doesn't exist".to_owned(),
            Reason::MissingRole => "user does not have the mod role".to_owned(),
        }
    }
}

/// The rule of authorization: the invoker's membership is known and holds
/// the required role.
pub open spec fn authorized(membership: Option<Seq<u64>>, required_role_id: u64) -> bool {
    match membership {
        Some(roles) => roles.contains(required_role_id),
        None => false,
    }
}

/// The roles of a membership, if it is known.
pub open spec fn membership_view(membership: Option<&Vec<u64>>) -> Option<Seq<u64>> {
    match membership {
        Some(roles) => Some(roles@),
        None => None,
    }
}

/// Decides whether an invoker may run a command that requires a role.
/// `membership` holds the roles of the invoker, or nothing where the
/// platform has no member record; an unknown membership is refused.
pub fn authorize(membership: Option<&Vec<u64>>, required_role_id: u64) -> (allowed: bool)
    ensures
        allowed == authorized(membership_view(membership), required_role_id),
{
    match membership {
        Some(roles) => {
            let mut i: usize = 0;
            while i < roles.len()
                invariant
                    i <= roles.len(),
                    membership_view(membership) == Some(roles@),
                    forall|j: int| 0 <= j < i ==> roles@[j] != required_role_id,
                decreases roles.len() - i,
            {
                if roles[i] == required_role_id {
                    assert(roles@[i as int] == required_role_id);
                    return true;
                }
                i += 1;
            }
            false
        },
        None => false,
    }
}

/// The check that guards the moderator commands: passes for an invoker who
/// holds the moderator role, and otherwise says why it did not.
pub fn mod_check(membership: Option<&Vec<u64>>, mod_role_id: u64) -> (verdict: Result<(), Reason>)
    ensures
        verdict is Ok <==> authorized(membership_view(membership), mod_role_id),
        verdict == Err::<(), Reason>(Reason::UnknownMember) <==> membership is None,
        verdict == Err::<(), Reason>(Reason::MissingRole) <==> membership is Some && !authorized(
            membership_view(membership),
            mod_role_id,
        ),
{
    match membership {
        Some(_) => {
            if authorize(membership, mod_role_id) {
                Ok(())
            } else {
                Err(Reason::MissingRole)
            }
        },
        None => Err(Reason::UnknownMember),
    }
}

/// An invoker with no roles is refused, whatever role is required.
pub proof fn empty_membership_is_refused(required_role_id: u64)
    ensures
        !authorized(Some(Seq::<u64>::empty()), required_role_id),
{
}

/// An invoker who holds the required role is admitted, whatever else the
/// membership holds.
pub proof fn holder_is_admitted(roles: Seq<u64>, required_role_id: u64)
    requires
        roles.contains(required_role_id),
    ensures
        authorized(Some(roles), required_role_id),
{
}

} // verus!
