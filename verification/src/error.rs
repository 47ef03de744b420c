//! The errors that stop a load test before any user runs.

use vstd::prelude::*;

verus! {

/// Why a load test could not be configured.
#[derive(Debug)]
pub enum GooseError {
    /// An option was given a value that it does not accept.
    InvalidOption {
        /// The option that was set.
        option: String,
        /// The value that was refused.
        value: String,
        /// What the option accepts.
        detail: String,
    },
    /// No host was configured for the load test.
    MissingHost,
    /// No task set was registered, or a registered task set holds no task.
    NoTasks,
}

/// What an error holds.
pub enum GooseErrorView {
    /// An option was given a value that it does not accept.
    InvalidOption {
        /// The option that was set.
        option: Seq<char>,
        /// The value that was refused.
        value: Seq<char>,
        /// What the option accepts.
        detail: Seq<char>,
    },
    /// No host was configured for the load test.
    MissingHost,
    /// No task set was registered, or a registered task set holds no task.
    NoTasks,
}

impl View for GooseError {
    type V = GooseErrorView;

    open spec fn view(&self) -> GooseErrorView {
        match self {
            GooseError::InvalidOption { option, value, detail } => GooseErrorView::InvalidOption {
                option: option@,
                value: value@,
                detail: detail@,
            },
            GooseError::MissingHost => GooseErrorView::MissingHost,
            GooseError::NoTasks => GooseErrorView::NoTasks,
        }
    }
}

} // verus!
