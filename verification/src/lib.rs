//! Decision logic of a community chat bot: who may run moderator commands,
//! and how a themed sub-group ("cohort") gets its role and its channel.
//!
//! The library never talks to the chat platform itself. Each routine takes
//! plain values describing what the platform reported and answers with the
//! next request to make, so that every decision can be stated and proved.
//!
//! - [`auth`]: the check that guards moderator commands.
//! - [`roles`]: the roles of a guild and the find-or-create rule for a role.
//! - [`permissions`]: permission overwrites and the set a cohort channel gets.
//! - [`channels`]: channels and the request that provisions one.
//! - [`cohort`]: the workflow that sets up a cohort, as a state machine.
//! - [`cohort_proofs`]: what holds of every run of that workflow.
//! - [`add_role`]: replies of the command that gives a role to members.
//! - [`welcome_message`]: the greeting for a new member.
//! - [`listening_party`]: which messages get pinned.
//! - [`text`]: numerals and mentions in message text.
//! - [`errors`]: the ways in which setting up a cohort can fail.

pub mod add_role;
pub mod auth;
pub mod channels;
pub mod cohort;
pub mod cohort_proofs;
pub mod errors;
pub mod listening_party;
pub mod permissions;
pub mod roles;
pub mod text;
pub mod welcome_message;
