//! Message text: decimal numbers, mentions, and the steps that extend a
//! message under construction.

use serenity::model::id::{ChannelId, RoleId};
use serenity::utils::MessageBuilder;
use vstd::prelude::*;
use vstd::string::StringExecFns;

verus! {

/// The character that writes the digit `d`.
pub open spec fn digit_char(d: nat) -> char {
    if d == 0 {
        '0'
    } else if d == 1 {
        '1'
    } else if d == 2 {
        '2'
    } else if d == 3 {
        '3'
    } else if d == 4 {
        '4'
    } else if d == 5 {
        '5'
    } else if d == 6 {
        '6'
    } else if d == 7 {
        '7'
    } else if d == 8 {
        '8'
    } else {
        '9'
    }
}

/// The decimal numeral of `n`: no sign, no leading zero, `"0"` for zero.
pub open spec fn decimal_text(n: nat) -> Seq<char>
    decreases n,
{
    if n < 10 {
        seq![digit_char(n)]
    } else {
        decimal_text(n / 10).push(digit_char(n % 10))
    }
}

/// How a channel is mentioned in a message: `<#` id `>`.
pub open spec fn channel_mention(channel_id: u64) -> Seq<char> {
    seq!['<', '#'] + decimal_text(channel_id as nat) + seq!['>']
}

/// How a role is mentioned in a message: `<@&` id `>`.
pub open spec fn role_mention(role_id: u64) -> Seq<char> {
    seq!['<', '@', '&'] + decimal_text(role_id as nat) + seq!['>']
}

/// `MessageBuilder::push` of serenity, applied to a builder that holds
/// `text`, followed by `build`. The contract says that the content is
/// appended to the text as it is, with no escaping and no decoration.
#[verifier::external_body]
pub(crate) fn push_text(text: String, content: &str) -> (pushed: String)
    ensures
        pushed@ == text@ + content@,
{
    MessageBuilder(text).push(content).build()
}

/// `MessageBuilder::channel` of serenity, applied to a builder that holds
/// `text`, followed by `build`. The contract says that the mention of the
/// channel is appended: the identifier in decimal between `<#` and `>`.
#[verifier::external_body]
pub(crate) fn push_channel(text: String, channel_id: u64) -> (pushed: String)
    ensures
        pushed@ == text@ + channel_mention(channel_id),
{
    MessageBuilder(text).channel(ChannelId(channel_id)).build()
}

/// `MessageBuilder::role` of serenity, applied to a builder that holds
/// `text`, followed by `build`. The contract says that the mention of the
/// role is appended: the identifier in decimal between `<@&` and `>`.
#[verifier::external_body]
pub(crate) fn push_role(text: String, role_id: u64) -> (pushed: String)
    ensures
        pushed@ == text@ + role_mention(role_id),
{
    MessageBuilder(text).role(RoleId(role_id)).build()
}

/// The text of one decimal digit.
fn digit_str(d: u64) -> (text: &'static str)
    requires
        d < 10,
    ensures
        text@ == seq![digit_char(d as nat)],
{
    proof {
        reveal_strlit("0");
        reveal_strlit("1");
        reveal_strlit("2");
        reveal_strlit("3");
        reveal_strlit("4");
        reveal_strlit("5");
        reveal_strlit("6");
        reveal_strlit("7");
        reveal_strlit("8");
        reveal_strlit("9");
    }
    let text = if d == 0 {
        "0"
    } else if d == 1 {
        "1"
    } else if d == 2 {
        "2"
    } else if d == 3 {
        "3"
    } else if d == 4 {
        "4"
    } else if d == 5 {
        "5"
    } else if d == 6 {
        "6"
    } else if d == 7 {
        "7"
    } else if d == 8 {
        "8"
    } else {
        "9"
    };
    assert(text@ =~= seq![digit_char(d as nat)]);
    text
}

/// Writes a number as its decimal numeral.
pub fn decimal_string(n: u64) -> (numeral: String)
    ensures
        numeral@ == decimal_text(n as nat),
    decreases n,
{
    if n < 10 {
        digit_str(n).to_owned()
    } else {
        let mut numeral = decimal_string(n / 10);
        numeral.append(digit_str(n % 10));
        assert(numeral@ =~= decimal_text((n / 10) as nat).push(digit_char((n % 10) as nat)));
        numeral
    }
}

} // verus!
