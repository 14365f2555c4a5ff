use rust_bot::add_role::{check_arguments, member_reply, MemberOutcome};
use rust_bot::cohort::confirmation_message;
use rust_bot::listening_party::{should_pin, MessageActivityKind, CHANNEL_LISTENING_PARTY};
use rust_bot::text::decimal_string;
use rust_bot::welcome_message::{
    get_welcome_message, render_welcome_message, select_welcome_message, WelcomeMessage,
};

fn greeting(before: &str, after: &str) -> WelcomeMessage {
    WelcomeMessage { before_mention: before.to_string(), after_mention: after.to_string() }
}

#[test]
fn welcome_falls_back_to_default_greeting() {
    assert_eq!(get_welcome_message(&Vec::new(), "<@123>"), "Welcome to the server, <@123>.");
}

#[test]
fn welcome_uses_the_only_greeting() {
    let greetings = vec![greeting("Ahoy ", ", pull up a chair!")];
    assert_eq!(get_welcome_message(&greetings, "<@123>"), "Ahoy <@123>, pull up a chair!");
}

#[test]
fn welcome_uses_one_of_the_greetings() {
    let greetings = vec![greeting("Hi ", "!"), greeting("Hello ", "."), greeting("Yo ", "?")];
    let expected = ["Hi <@5>!", "Hello <@5>.", "Yo <@5>?"];
    for _ in 0..50 {
        let text = get_welcome_message(&greetings, "<@5>");
        assert!(expected.contains(&text.as_str()));
    }
}

#[test]
fn selecting_keeps_the_drawn_greeting() {
    let drawn = greeting("Hi ", "!");
    assert_eq!(select_welcome_message(Some(&drawn)), greeting("Hi ", "!"));
    assert_eq!(select_welcome_message(None), greeting("Welcome to the server, ", "."));
}

#[test]
fn rendering_puts_the_mention_between_the_parts() {
    assert_eq!(render_welcome_message(&greeting("a", "c"), "b"), "abc");
    assert_eq!(render_welcome_message(&greeting("", ""), ""), "");
    assert_eq!(render_welcome_message(&greeting("*hi* ", " _bye_"), "<@1>"), "*hi* <@1> _bye_");
}

#[test]
fn too_few_arguments_are_reported() {
    assert_eq!(check_arguments(0), Some("You don't have enough args!".to_string()));
    assert_eq!(check_arguments(1), Some("You don't have enough args!".to_string()));
    assert_eq!(check_arguments(2), None);
    assert_eq!(check_arguments(7), None);
}

#[test]
fn added_member_needs_no_reply() {
    assert_eq!(member_reply(12, "ferris", MemberOutcome::Added), None);
}

#[test]
fn refused_role_is_reported_with_its_identifier() {
    assert_eq!(
        member_reply(639531892437286959, "ferris", MemberOutcome::AddFailed),
        Some(
            "Role ID 639531892437286959 didn't exist or couldn't be successfully added."
                .to_string()
        )
    );
    assert_eq!(
        member_reply(0, "ferris", MemberOutcome::AddFailed),
        Some("Role ID 0 didn't exist or couldn't be successfully added.".to_string())
    );
}

#[test]
fn unknown_member_is_reported_by_name() {
    assert_eq!(
        member_reply(12, "ferris", MemberOutcome::NotFound),
        Some("Member with the name ferris wasn't found".to_string())
    );
}

#[test]
fn listening_activity_in_the_party_channel_is_pinned() {
    assert!(should_pin(CHANNEL_LISTENING_PARTY, Some(MessageActivityKind::Listen)));
}

#[test]
fn other_messages_are_not_pinned() {
    assert!(!should_pin(CHANNEL_LISTENING_PARTY, None));
    assert!(!should_pin(CHANNEL_LISTENING_PARTY, Some(MessageActivityKind::Join)));
    assert!(!should_pin(CHANNEL_LISTENING_PARTY, Some(MessageActivityKind::Spectate)));
    assert!(!should_pin(CHANNEL_LISTENING_PARTY, Some(MessageActivityKind::JoinRequest)));
    assert!(!should_pin(CHANNEL_LISTENING_PARTY, Some(MessageActivityKind::Unknown)));
    assert!(!should_pin(1, Some(MessageActivityKind::Listen)));
}

#[test]
fn cloned_greeting_equals_its_source() {
    let source = greeting("Hi ", "!");
    assert_eq!(source.clone(), source);
}

#[test]
fn numbers_are_written_in_decimal() {
    assert_eq!(decimal_string(0), "0");
    assert_eq!(decimal_string(7), "7");
    assert_eq!(decimal_string(9), "9");
    assert_eq!(decimal_string(10), "10");
    assert_eq!(decimal_string(101), "101");
    assert_eq!(decimal_string(1234567890), "1234567890");
    assert_eq!(decimal_string(639531892437286959), "639531892437286959");
    assert_eq!(decimal_string(u64::MAX), "18446744073709551615");
}

#[test]
fn mentions_write_identifiers_in_decimal() {
    for id in [0u64, 5, 10, 99, 100, 742445700998103132, u64::MAX] {
        let expected = format!(
            "Successfully created club channel: <#{}>! Feel free to add users with the <@&{}> role.",
            decimal_string(id),
            decimal_string(u64::MAX - id)
        );
        assert_eq!(confirmation_message(id, u64::MAX - id), expected);
    }
}
