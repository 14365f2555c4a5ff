//! Giving a role to members by name: what to tell the requester.

use crate::text::{decimal_string, decimal_text};
use vstd::prelude::*;
use vstd::string::StringExecFns;

verus! {

/// The fewest arguments the command takes: a role and one member.
pub const MIN_ARGUMENTS: usize = 2;

/// What came of giving the role to one member.
#[derive(Clone, Copy, Debug, PartialEq, Eq, Structural)]
pub enum MemberOutcome {
    /// The member now holds the role.
    Added,
    /// The member was found, but the platform refused to add the role.
    AddFailed,
    /// No member of the guild goes by that name.
    NotFound,
}

/// The reply to an invocation with too few arguments.
pub open spec fn too_few_arguments_notice() -> Seq<char> {
    "You don't have enough args!"@
}

/// The reply where the platform refused to add the role.
pub open spec fn role_not_added_notice(role_id: u64) -> Seq<char> {
    "Role ID "@ + decimal_text(role_id as nat)
        + " didn't exist or couldn't be successfully added."@
}

/// The reply where no member goes by the name.
pub open spec fn member_not_found_notice(member_name: Seq<char>) -> Seq<char> {
    "Member with the name "@ + member_name + " wasn't found"@
}

/// The reply that an outcome calls for, if any: success is silent.
pub open spec fn member_notice(
    role_id: u64,
    member_name: Seq<char>,
    outcome: MemberOutcome,
) -> Option<Seq<char>> {
    match outcome {
        MemberOutcome::Added => None,
        MemberOutcome::AddFailed => Some(role_not_added_notice(role_id)),
        MemberOutcome::NotFound => Some(member_not_found_notice(member_name)),
    }
}

/// The value of an optional text.
pub open spec fn text_view(text: Option<String>) -> Option<Seq<char>> {
    match text {
        Some(text) => Some(text@),
        None => None,
    }
}

/// Checks the number of arguments of an invocation. With fewer than two
/// there is nothing to do but to say so; the reply is returned.
pub fn check_arguments(argument_count: usize) -> (reply: Option<String>)
    ensures
        argument_count < MIN_ARGUMENTS ==> text_view(reply) == Some(too_few_arguments_notice()),
        argument_count >= MIN_ARGUMENTS ==> reply is None,
{
    if argument_count < MIN_ARGUMENTS {
        Some("You don't have enough args!".to_owned())
    } else {
        None
    }
}

/// The reply that the outcome for one member calls for, if any.
pub fn member_reply(role_id: u64, member_name: &str, outcome: MemberOutcome) -> (reply: Option<
    String,
>)
    ensures
        text_view(reply) == member_notice(role_id, member_name@, outcome),
{
    match outcome {
        MemberOutcome::Added => None,
        MemberOutcome::AddFailed => {
            let mut text: String = "Role ID ".to_owned();
            text.append(decimal_string(role_id).as_str());
            text.append(" didn't exist or couldn't be successfully added.");
            Some(text)
        },
        MemberOutcome::NotFound => {
            let mut text: String = "Member with the name ".to_owned();
            text.append(member_name);
            text.append(" wasn't found");
            Some(text)
        },
    }
}

} // verus!
