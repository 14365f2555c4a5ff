//! The ways in which setting up a cohort can fail.

use vstd::prelude::*;

verus! {

/// Why a cohort could not be set up.
#[derive(Debug, PartialEq, Eq)]
pub enum CohortError {
    /// The command was invoked without the cohort's name.
    MissingArgument,
    /// The platform refused to create the role; the cause is kept for the log.
    RoleCreationFailed { cause: String },
    /// The platform refused to create the channel; the cause is kept for the
    /// log.
    ChannelCreationFailed { cause: String },
    /// The guild has no default role, which the platform always provides.
    EveryoneRoleMissing,
}

/// Mathematical value of a [`CohortError`].
pub enum CohortErrorView {
    MissingArgument,
    RoleCreationFailed { cause: Seq<char> },
    ChannelCreationFailed { cause: Seq<char> },
    EveryoneRoleMissing,
}

impl View for CohortError {
    type V = CohortErrorView;

    open spec fn view(&self) -> CohortErrorView {
        match self {
            CohortError::MissingArgument => CohortErrorView::MissingArgument,
            CohortError::RoleCreationFailed { cause } => CohortErrorView::RoleCreationFailed {
                cause: cause@,
            },
            CohortError::ChannelCreationFailed { cause } => CohortErrorView::ChannelCreationFailed {
                cause: cause@,
            },
            CohortError::EveryoneRoleMissing => CohortErrorView::EveryoneRoleMissing,
        }
    }
}

} // verus!
