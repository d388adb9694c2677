//! Why a run could not be configured, and why one ended in failure.

use vstd::prelude::*;
use vstd::string::StringExecFns;
use crate::outcome::VmiOutcome;

verus! {

/// A fault in the identity or URL inputs of the legacy registration path.
#[derive(Debug, Clone, Copy, PartialEq, Eq, Structural)]
pub enum ConfigError {
    /// Both the organization and the repository are named.
    OrgAndRepoBothSet,
    /// Neither the organization nor the repository is named.
    OrgAndRepoBothUnset,
    /// No registration token was given.
    TokenMissing,
}

impl ConfigError {
    pub open spec fn message_spec(self) -> Seq<char> {
        match self {
            ConfigError::OrgAndRepoBothSet => "RUNNER_REPO and RUNNER_ORG cannot both be non-empty"@,
            ConfigError::OrgAndRepoBothUnset => "RUNNER_REPO or RUNNER_ORG must be set"@,
            ConfigError::TokenMissing => "A token is required"@,
        }
    }

    /// The text shown to the operator.
    pub fn message(&self) -> (r: &'static str)
        ensures
            r@ == self.message_spec(),
    {
        match self {
            ConfigError::OrgAndRepoBothSet => "RUNNER_REPO and RUNNER_ORG cannot both be non-empty",
            ConfigError::OrgAndRepoBothUnset => "RUNNER_REPO or RUNNER_ORG must be set",
            ConfigError::TokenMissing => "A token is required",
        }
    }
}

/// Why a run ended in failure. Nothing is retried: each of these ends the
/// run, and is reported once.
#[derive(Debug)]
pub enum RunError {
    /// The settings of the run are at fault.
    Configuration(ConfigError),
    /// The cluster does not serve the resource kind of this name.
    Discovery(String),
    /// A call to the cluster failed; the text says how.
    Api(String),
    /// The runner information could not be serialized.
    Serialize(serde_json::Error),
    /// An event came that answers nothing that was asked.
    UnexpectedEvent,
    /// The run came to an outcome other than success.
    AbnormalOutcome(VmiOutcome),
}

pub enum RunErrorView {
    Configuration(ConfigError),
    Discovery(Seq<char>),
    Api(Seq<char>),
    /// The error of `serde_json` itself is no part of the view.
    Serialize,
    UnexpectedEvent,
    AbnormalOutcome(VmiOutcome),
}

impl View for RunError {
    type V = RunErrorView;

    open spec fn view(&self) -> RunErrorView {
        match self {
            RunError::Configuration(e) => RunErrorView::Configuration(*e),
            RunError::Discovery(kind) => RunErrorView::Discovery(kind@),
            RunError::Api(text) => RunErrorView::Api(text@),
            RunError::Serialize(_) => RunErrorView::Serialize,
            RunError::UnexpectedEvent => RunErrorView::UnexpectedEvent,
            RunError::AbnormalOutcome(outcome) => RunErrorView::AbnormalOutcome(*outcome),
        }
    }
}

impl RunErrorView {
    /// The text shown to the operator, where it is made here.
    pub open spec fn message(self) -> Option<Seq<char>> {
        match self {
            RunErrorView::Configuration(e) => Some(e.message_spec()),
            RunErrorView::Discovery(kind) => Some(
                "The kubevirt.io API group doesn't have the "@ + kind + " type"@,
            ),
            RunErrorView::Api(text) => Some(text),
            RunErrorView::Serialize => None,
            RunErrorView::UnexpectedEvent => Some(
                "An event came that answers nothing that was asked"@,
            ),
            RunErrorView::AbnormalOutcome(outcome) => Some(
                "VMI outcome: "@ + outcome.name_spec(),
            ),
        }
    }
}

/// The view of the result of a run.
pub open spec fn result_view(result: Result<(), RunError>) -> Result<(), RunErrorView> {
    match result {
        Ok(()) => Ok(()),
        Err(e) => Err(e@),
    }
}

/// The result that an outcome stands for: success for `Succeeded`, and for
/// every other outcome a failure that carries it.
pub open spec fn run_result(outcome: VmiOutcome) -> Result<(), RunErrorView> {
    if outcome == VmiOutcome::Succeeded {
        Ok(())
    } else {
        Err(RunErrorView::AbnormalOutcome(outcome))
    }
}

/// The process exit code of a result: 0 for success, 1 for any failure.
pub open spec fn exit_code_of(result: Result<(), RunErrorView>) -> int {
    if result is Ok { 0 } else { 1 }
}

impl RunError {
    /// The text shown to the operator. For a failure to serialize it is the
    /// text that `serde_json` gives.
    pub fn message(&self) -> (r: String)
        ensures
            self@.message() matches Some(text) ==> r@ == text,
    {
        match self {
            RunError::Configuration(e) => String::from_str(e.message()),
            RunError::Discovery(kind) => {
                let mut text = String::from_str("The kubevirt.io API group doesn't have the ");
                text.append(kind.as_str());
                text.append(" type");
                text
            },
            RunError::Api(text) => text.clone(),
            RunError::Serialize(e) => e.to_string(),
            RunError::UnexpectedEvent => String::from_str(
                "An event came that answers nothing that was asked",
            ),
            RunError::AbnormalOutcome(outcome) => {
                let mut text = String::from_str("VMI outcome: ");
                text.append(outcome.name());
                text
            },
        }
    }
}

impl VmiOutcome {
    /// Maps the outcome to the result of the run.
    pub fn into_result(self) -> (r: Result<(), RunError>)
        ensures
            result_view(r) == run_result(self),
            exit_code_of(result_view(r)) == self.exit_code_spec(),
    {
        if self.is_abnormal() {
            Err(RunError::AbnormalOutcome(self))
        } else {
            Ok(())
        }
    }
}

/// The process exit code that reports a result.
pub fn exit_code(result: &Result<(), RunError>) -> (r: u8)
    ensures
        r as int == exit_code_of(result_view(*result)),
{
    match result {
        Ok(_) => 0,
        Err(_) => 1,
    }
}

} // verus!
