//! Error taxonomy of the pipeline.
//!
//! Startup-phase failures (configuration, one-time secret fetch) are fatal to
//! the process; invocation-phase failures (role assumption, publication) are
//! fatal to the current invocation only. Provider-level causes are carried as
//! plain diagnostic messages.
use vstd::prelude::*;

verus! {

/// A required configuration value was not set.
#[derive(Debug, Clone, PartialEq, Eq, Structural)]
pub enum ConfigError {
    MissingRoleArn,
    MissingTokenName,
    MissingServiceId,
    MissingDictionaryId,
}

/// Failure of the one-time secret fetch.
#[derive(Debug, Clone)]
pub enum SSMError {
    /// The provider reported that the named parameter does not exist.
    ParameterNotExist,
    /// The parameter exists but carries no usable (non-empty) value.
    EmptyParameter,
    /// The provider call itself failed; carries a diagnostic message.
    Provider(String),
}

/// Mathematical model of an `SSMError`.
#[verifier::ext_equal]
pub enum SSMErrorView {
    ParameterNotExist,
    EmptyParameter,
    Provider(Seq<char>),
}

impl View for SSMError {
    type V = SSMErrorView;

    open spec fn view(&self) -> SSMErrorView {
        match self {
            SSMError::ParameterNotExist => SSMErrorView::ParameterNotExist,
            SSMError::EmptyParameter => SSMErrorView::EmptyParameter,
            SSMError::Provider(m) => SSMErrorView::Provider(m@),
        }
    }
}

/// Failure of a role-assumption attempt.
#[derive(Debug, Clone)]
pub enum STSError {
    /// The provider call succeeded but the response did not carry a complete
    /// credential triple.
    InvalidResponse,
    /// The provider call itself failed; carries a diagnostic message.
    Provider(String),
}

/// Mathematical model of an `STSError`.
#[verifier::ext_equal]
pub enum STSErrorView {
    InvalidResponse,
    Provider(Seq<char>),
}

impl View for STSError {
    type V = STSErrorView;

    open spec fn view(&self) -> STSErrorView {
        match self {
            STSError::InvalidResponse => STSErrorView::InvalidResponse,
            STSError::Provider(m) => STSErrorView::Provider(m@),
        }
    }
}

/// Failure of a dictionary upsert.
#[derive(Debug, Clone)]
pub enum PublishError {
    /// The provider call failed; carries a diagnostic message.
    Provider(String),
}

/// Mathematical model of a `PublishError`.
#[verifier::ext_equal]
pub enum PublishErrorView {
    Provider(Seq<char>),
}

impl View for PublishError {
    type V = PublishErrorView;

    open spec fn view(&self) -> PublishErrorView {
        match self {
            PublishError::Provider(m) => PublishErrorView::Provider(m@),
        }
    }
}

/// Invocation-level failure, tagged by the step that failed, so that callers
/// can branch on step identity without inspecting provider internals.
#[derive(Debug, Clone)]
pub enum RunError {
    AssumeRole(STSError),
    Publish(PublishError),
}

/// Mathematical model of a `RunError`.
#[verifier::ext_equal]
pub enum RunErrorView {
    AssumeRole(STSErrorView),
    Publish(PublishErrorView),
}

impl View for RunError {
    type V = RunErrorView;

    open spec fn view(&self) -> RunErrorView {
        match self {
            RunError::AssumeRole(e) => RunErrorView::AssumeRole(e@),
            RunError::Publish(e) => RunErrorView::Publish(e@),
        }
    }
}

/// Startup-phase failure: fatal to the process, no invocation runs.
#[derive(Debug, Clone)]
pub enum StartupError {
    Config(ConfigError),
    SecretFetch(SSMError),
}

/// Mathematical model of a `StartupError`.
#[verifier::ext_equal]
pub enum StartupErrorView {
    Config(ConfigError),
    SecretFetch(SSMErrorView),
}

impl View for StartupError {
    type V = StartupErrorView;

    open spec fn view(&self) -> StartupErrorView {
        match self {
            StartupError::Config(e) => StartupErrorView::Config(*e),
            StartupError::SecretFetch(e) => StartupErrorView::SecretFetch(e@),
        }
    }
}

} // verus!
