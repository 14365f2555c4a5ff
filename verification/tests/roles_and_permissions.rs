use rust_bot::auth::{authorize, mod_check, Reason, MOD_ROLE_ID};
use rust_bot::channels::{provision_channel, ChannelKind};
use rust_bot::errors::CohortError;
use rust_bot::permissions::{
    mute_users_without_role_permset, OverwriteSubject, PermissionOverwrite, SEND_MESSAGES,
    SEND_TTS_MESSAGES,
};
use rust_bot::roles::{
    get_everyone_role, resolve_role, role_by_name, Role, RoleResolution, DEFAULT_ROLE_COLOUR,
};

fn named(id: u64, name: &str) -> Role {
    Role { id, name: name.to_string(), colour: 7 }
}

#[test]
fn permset_has_two_entries_one_per_subject() {
    let overwrites = mute_users_without_role_permset(10, 20);
    assert_eq!(overwrites.len(), 2);
    assert_eq!(overwrites[0].subject, OverwriteSubject::Role(10));
    assert_eq!(overwrites[1].subject, OverwriteSubject::EveryoneRole(20));
    assert_eq!(overwrites[0].subject.id(), 10);
    assert_eq!(overwrites[1].subject.id(), 20);
    assert_eq!(OverwriteSubject::Member(30).id(), 30);
}

#[test]
fn permset_allows_role_and_denies_everyone() {
    let overwrites = mute_users_without_role_permset(10, 20);
    assert_eq!(
        overwrites,
        vec![
            PermissionOverwrite { subject: OverwriteSubject::Role(10), allow: 2048, deny: 0 },
            PermissionOverwrite {
                subject: OverwriteSubject::EveryoneRole(20),
                allow: 0,
                deny: 2048 + 4096
            },
        ]
    );
}

#[test]
fn permset_never_allows_and_denies_the_same_flag() {
    for (role_id, everyone) in [(10u64, 20u64), (0, 0), (u64::MAX, 1), (5, 5)] {
        for overwrite in mute_users_without_role_permset(role_id, everyone) {
            assert_eq!(overwrite.allow & overwrite.deny, 0);
        }
    }
}

#[test]
fn permset_with_same_identifier_still_has_both_entries() {
    let overwrites = mute_users_without_role_permset(5, 5);
    assert_eq!(overwrites.len(), 2);
    assert_eq!(overwrites[0].subject, OverwriteSubject::Role(5));
    assert_eq!(overwrites[0].allow, SEND_MESSAGES);
    assert_eq!(overwrites[1].subject, OverwriteSubject::EveryoneRole(5));
    assert_eq!(overwrites[1].deny, SEND_MESSAGES | SEND_TTS_MESSAGES);
}

#[test]
fn permission_flags_have_their_bits() {
    assert_eq!(SEND_MESSAGES, 1 << 11);
    assert_eq!(SEND_TTS_MESSAGES, 1 << 12);
}

#[test]
fn empty_membership_is_denied() {
    let membership: Vec<u64> = Vec::new();
    assert!(!authorize(Some(&membership), MOD_ROLE_ID));
    assert!(!authorize(Some(&membership), 0));
}

#[test]
fn membership_with_required_role_is_allowed() {
    let membership = vec![MOD_ROLE_ID];
    assert!(authorize(Some(&membership), MOD_ROLE_ID));
}

#[test]
fn membership_with_other_roles_only_is_denied() {
    let membership = vec![1, 2, 3];
    assert!(!authorize(Some(&membership), 4));
    assert!(authorize(Some(&membership), 3));
    assert!(authorize(Some(&membership), 1));
}

#[test]
fn unknown_membership_is_denied() {
    assert!(!authorize(None, MOD_ROLE_ID));
}

#[test]
fn mod_check_passes_for_moderators() {
    let membership = vec![9, MOD_ROLE_ID];
    assert_eq!(mod_check(Some(&membership), MOD_ROLE_ID), Ok(()));
}

#[test]
fn mod_check_reports_missing_role() {
    let membership = vec![9];
    assert_eq!(mod_check(Some(&membership), MOD_ROLE_ID), Err(Reason::MissingRole));
    assert_eq!(Reason::MissingRole.log_message(), "user does not have the mod role");
}

#[test]
fn mod_check_reports_unknown_member() {
    assert_eq!(mod_check(None, MOD_ROLE_ID), Err(Reason::UnknownMember));
    assert_eq!(Reason::UnknownMember.log_message(), "member doesn't exist");
}

#[test]
fn role_is_found_by_exact_name() {
    let roles = vec![named(1, "@everyone"), named(2, "cohort: demo"), named(3, "mods")];
    assert_eq!(role_by_name(&roles, "cohort: demo").map(|role| role.id), Some(2));
    assert_eq!(role_by_name(&roles, "mods").map(|role| role.id), Some(3));
    assert_eq!(role_by_name(&roles, "cohort: dem"), None);
    assert_eq!(role_by_name(&roles, "cohort: demo "), None);
    assert_eq!(role_by_name(&Vec::new(), "mods"), None);
}

#[test]
fn role_lookup_is_case_sensitive() {
    let roles = vec![named(2, "Cohort: Demo")];
    assert_eq!(role_by_name(&roles, "cohort: demo"), None);
    assert_eq!(role_by_name(&roles, "Cohort: Demo").map(|role| role.id), Some(2));
}

#[test]
fn first_role_of_a_name_wins() {
    let roles = vec![named(4, "twin"), named(5, "twin")];
    assert_eq!(role_by_name(&roles, "twin").map(|role| role.id), Some(4));
}

#[test]
fn everyone_role_is_found_or_missing() {
    let roles = vec![named(2, "mods"), named(1, "@everyone")];
    assert_eq!(get_everyone_role(&roles), Some(named(1, "@everyone")));
    assert_eq!(get_everyone_role(&vec![named(2, "mods")]), None);
    assert_eq!(get_everyone_role(&vec![named(2, "@Everyone")]), None);
}

#[test]
fn resolve_role_reuses_existing_role_unchanged() {
    let roles = vec![named(1, "@everyone"), named(2, "cohort: demo")];
    assert_eq!(
        resolve_role(&roles, "cohort: demo", DEFAULT_ROLE_COLOUR),
        RoleResolution::Existing { role: named(2, "cohort: demo") }
    );
}

#[test]
fn resolve_role_asks_for_creation_when_absent() {
    let roles = vec![named(1, "@everyone")];
    assert_eq!(
        resolve_role(&roles, "cohort: demo", DEFAULT_ROLE_COLOUR),
        RoleResolution::Create { name: "cohort: demo".to_string(), colour: 16744330 }
    );
}

#[test]
fn resolve_role_twice_returns_the_same_role() {
    let mut roles = vec![named(1, "@everyone")];
    let first = resolve_role(&roles, "cohort: demo", DEFAULT_ROLE_COLOUR);
    let first_id = match first {
        RoleResolution::Existing { role } => role.id,
        RoleResolution::Create { name, colour } => {
            roles.push(Role { id: 99, name, colour });
            99
        }
    };
    match resolve_role(&roles, "cohort: demo", DEFAULT_ROLE_COLOUR) {
        RoleResolution::Existing { role } => assert_eq!(role.id, first_id),
        RoleResolution::Create { .. } => panic!("a second creation was asked for"),
    }
    match resolve_role(&roles, "cohort: demo", DEFAULT_ROLE_COLOUR) {
        RoleResolution::Existing { role } => assert_eq!(role.id, first_id),
        RoleResolution::Create { .. } => panic!("a third creation was asked for"),
    }
}

#[test]
fn provision_builds_a_text_channel_request() {
    let roles = vec![named(1, "@everyone"), named(2, "cohort: demo")];
    let request = provision_channel(&roles, "demo".to_string(), 700, 2).unwrap();
    assert_eq!(request.name, "demo");
    assert_eq!(request.category_id, 700);
    assert_eq!(request.kind, ChannelKind::Text);
    assert_eq!(request.overwrites, mute_users_without_role_permset(2, 1));
}

#[test]
fn provision_fails_without_everyone_role() {
    let roles = vec![named(2, "cohort: demo")];
    assert_eq!(
        provision_channel(&roles, "demo".to_string(), 700, 2),
        Err(CohortError::EveryoneRoleMissing)
    );
}

#[test]
fn cloned_role_equals_its_source() {
    let source = named(12, "cohort: demo");
    let copy = source.clone();
    assert_eq!(copy, source);
    assert_eq!(copy.id, 12);
    assert_eq!(copy.name, "cohort: demo");
    assert_eq!(copy.colour, 7);
}

#[test]
fn default_colour_has_its_value() {
    assert_eq!(DEFAULT_ROLE_COLOUR, 0xFF7F8A);
    assert_eq!(MOD_ROLE_ID, 639531892437286959);
}
