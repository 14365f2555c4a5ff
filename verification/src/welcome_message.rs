//! The message that greets a new member.

use crate::text::push_text;
use rand::seq::SliceRandom;
use vstd::prelude::*;

verus! {

/// A greeting in two parts, written around the mention of the new member.
#[derive(Debug, PartialEq, Eq)]
pub struct WelcomeMessage {
    pub before_mention: String,
    pub after_mention: String,
}

/// Mathematical value of a [`WelcomeMessage`].
pub struct WelcomeMessageView {
    pub before_mention: Seq<char>,
    pub after_mention: Seq<char>,
}

impl View for WelcomeMessage {
    type V = WelcomeMessageView;

    open spec fn view(&self) -> WelcomeMessageView {
        WelcomeMessageView {
            before_mention: self.before_mention@,
            after_mention: self.after_mention@,
        }
    }
}

impl Clone for WelcomeMessage {
    fn clone(&self) -> (copy: Self)
        ensures
            copy == *self,
    {
        WelcomeMessage {
            before_mention: self.before_mention.clone(),
            after_mention: self.after_mention.clone(),
        }
    }
}

/// The greeting used where none is configured.
pub open spec fn default_welcome() -> WelcomeMessageView {
    WelcomeMessageView { before_mention: "Welcome to the server, "@, after_mention: "."@ }
}

/// A greeting written out: its first part, the mention, its second part.
pub open spec fn welcome_text(message: WelcomeMessageView, mention: Seq<char>) -> Seq<char> {
    message.before_mention + mention + message.after_mention
}

/// `SliceRandom::choose` of rand on the greetings, drawing from rand's
/// thread-local generator. The contract says what holds of every draw:
/// nothing comes back exactly when there is nothing to choose from, and what
/// comes back is one of the greetings.
#[verifier::external_body]
fn choose_message(welcome_messages: &Vec<WelcomeMessage>) -> (chosen: Option<&WelcomeMessage>)
    ensures
        chosen is None <==> welcome_messages@.len() == 0,
        chosen matches Some(message) ==> exists|i: int|
            0 <= i < welcome_messages@.len() && welcome_messages@[i] == *message,
{
    welcome_messages.choose(&mut rand::thread_rng())
}

/// The greeting to use for a draw: the one drawn, or the default greeting
/// where nothing was drawn.
pub fn select_welcome_message(chosen: Option<&WelcomeMessage>) -> (message: WelcomeMessage)
    ensures
        chosen matches Some(drawn) ==> message == *drawn,
        chosen is None ==> message@ == default_welcome(),
{
    match chosen {
        Some(welcome_message) => welcome_message.clone(),
        None => WelcomeMessage {
            before_mention: "Welcome to the server, ".to_owned(),
            after_mention: ".".to_owned(),
        },
    }
}

/// Writes a greeting out around the mention of the new member.
pub fn render_welcome_message(message: &WelcomeMessage, mention: &str) -> (text: String)
    ensures
        text@ == welcome_text(message@, mention@),
{
    let text = push_text(String::new(), message.before_mention.as_str());
    let text = push_text(text, mention);
    push_text(text, message.after_mention.as_str())
}

/// Greets a new member with one of the configured greetings, chosen at
/// random, or with the default greeting where none is configured. `mention`
/// is the text that mentions the new member.
pub fn get_welcome_message(welcome_messages: &Vec<WelcomeMessage>, mention: &str) -> (text: String)
    ensures
        welcome_messages@.len() == 0 ==> text@ == welcome_text(default_welcome(), mention@),
        welcome_messages@.len() > 0 ==> exists|i: int|
            0 <= i < welcome_messages@.len() && text@ == welcome_text(
                (#[trigger] welcome_messages@[i])@,
                mention@,
            ),
{
    let chosen = choose_message(welcome_messages);
    let rand_msg = select_welcome_message(chosen);
    render_welcome_message(&rand_msg, mention)
}

} // verus!
