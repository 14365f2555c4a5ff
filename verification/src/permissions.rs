//! Permission overwrites: the per-channel rules that grant or withhold
//! capabilities from a role.

use serenity::model::permissions::Permissions;
use vstd::prelude::*;

verus! {

/// Capability flag: sending ordinary text messages.
pub const SEND_MESSAGES: u64 = 0x800;

/// Capability flag: sending text-to-speech messages.
pub const SEND_TTS_MESSAGES: u64 = 0x1000;

/// The party an overwrite applies to.
#[derive(Clone, Copy, Debug, PartialEq, Eq, Structural)]
pub enum OverwriteSubject {
    /// A specific role, by identifier.
    Role(u64),
    /// The guild's default role, which every member holds.
    EveryoneRole(u64),
    /// A single member, by identifier. The bot writes no such overwrite; the
    /// platform may report one on a channel.
    Member(u64),
}

impl OverwriteSubject {
    /// Identifier of the role or member the subject stands for.
    pub open spec fn spec_id(self) -> u64 {
        match self {
            OverwriteSubject::Role(id) => id,
            OverwriteSubject::EveryoneRole(id) => id,
            OverwriteSubject::Member(id) => id,
        }
    }

    /// Identifier of the role or member the subject stands for.
    #[verifier::when_used_as_spec(spec_id)]
    pub fn id(self) -> (id: u64)
        ensures
            id == self.spec_id(),
    {
        match self {
            OverwriteSubject::Role(id) => id,
            OverwriteSubject::EveryoneRole(id) => id,
            OverwriteSubject::Member(id) => id,
        }
    }
}

/// One overwrite rule: the flags granted to and withheld from a subject.
#[derive(Clone, Copy, Debug, PartialEq, Eq, Structural)]
pub struct PermissionOverwrite {
    pub subject: OverwriteSubject,
    pub allow: u64,
    pub deny: u64,
}

impl PermissionOverwrite {
    /// No flag is both granted and withheld.
    pub open spec fn well_formed(self) -> bool {
        self.allow & self.deny == 0
    }
}

/// Bits of serenity's `Permissions::SEND_MESSAGES`, read through
/// `Permissions::bits`. The contract repeats the value that serenity
/// declares for the flag, bit 11.
#[verifier::external_body]
fn send_messages_bits() -> (bits: u64)
    ensures
        bits == SEND_MESSAGES,
{
    Permissions::SEND_MESSAGES.bits()
}

/// Bits of serenity's `Permissions::SEND_TTS_MESSAGES`, read through
/// `Permissions::bits`. The contract repeats the value that serenity
/// declares for the flag, bit 12.
#[verifier::external_body]
fn send_tts_messages_bits() -> (bits: u64)
    ensures
        bits == SEND_TTS_MESSAGES,
{
    Permissions::SEND_TTS_MESSAGES.bits()
}

/// The overwrites of a cohort channel, in the order they are applied: first
/// the cohort role, which may send messages; then the default role, which may
/// send neither ordinary nor text-to-speech messages.
pub open spec fn cohort_overwrites(role_id: u64, everyone_role_id: u64) -> Seq<PermissionOverwrite> {
    seq![
        PermissionOverwrite {
            subject: OverwriteSubject::Role(role_id),
            allow: SEND_MESSAGES,
            deny: 0,
        },
        PermissionOverwrite {
            subject: OverwriteSubject::EveryoneRole(everyone_role_id),
            allow: 0,
            deny: SEND_MESSAGES | SEND_TTS_MESSAGES,
        },
    ]
}

/// No subject is both granted and withheld a flag: not within one overwrite,
/// and not across two overwrites for the same subject.
pub open spec fn consistent(overwrites: Seq<PermissionOverwrite>) -> bool {
    forall|i: int, j: int|
        0 <= i < overwrites.len() && 0 <= j < overwrites.len() && (#[trigger] overwrites[i]).subject
            == (#[trigger] overwrites[j]).subject ==> overwrites[i].allow & overwrites[j].deny == 0
}

/// The overwrites of a cohort channel are two, one per subject, and no
/// subject is both granted and withheld a flag. This holds whatever the two
/// roles are, and also where both identifiers are the same.
pub proof fn cohort_overwrites_are_consistent(role_id: u64, everyone_role_id: u64)
    ensures
        cohort_overwrites(role_id, everyone_role_id).len() == 2,
        cohort_overwrites(role_id, everyone_role_id)[0].subject != cohort_overwrites(
            role_id,
            everyone_role_id,
        )[1].subject,
        consistent(cohort_overwrites(role_id, everyone_role_id)),
        forall|i: int|
            0 <= i < cohort_overwrites(role_id, everyone_role_id).len() ==> (
            #[trigger] cohort_overwrites(role_id, everyone_role_id)[i]).well_formed(),
{
    assert(0x800u64 & 0u64 == 0) by (bit_vector);
    assert(0u64 & (0x800u64 | 0x1000u64) == 0) by (bit_vector);
}

/// Builds the overwrites that let only holders of `role_id` write in a
/// channel. Read access is untouched, so it is inherited from the category.
pub fn mute_users_without_role_permset(role_id: u64, everyone_role_id: u64) -> (overwrites: Vec<
    PermissionOverwrite,
>)
    ensures
        overwrites@ == cohort_overwrites(role_id, everyone_role_id),
        overwrites@.len() == 2,
        overwrites@[0].subject == OverwriteSubject::Role(role_id),
        overwrites@[1].subject == OverwriteSubject::EveryoneRole(everyone_role_id),
        forall|i: int| 0 <= i < overwrites@.len() ==> (#[trigger] overwrites@[i]).well_formed(),
        consistent(overwrites@),
{
    let send: u64 = send_messages_bits();
    let tts: u64 = send_tts_messages_bits();
    let mut overwrites: Vec<PermissionOverwrite> = Vec::new();
    overwrites.push(
        PermissionOverwrite { subject: OverwriteSubject::Role(role_id), allow: send, deny: 0 },
    );
    overwrites.push(
        PermissionOverwrite {
            subject: OverwriteSubject::EveryoneRole(everyone_role_id),
            allow: 0,
            deny: send | tts,
        },
    );
    proof {
        assert(overwrites@ =~= cohort_overwrites(role_id, everyone_role_id));
        cohort_overwrites_are_consistent(role_id, everyone_role_id);
    }
    overwrites
}

} // verus!
