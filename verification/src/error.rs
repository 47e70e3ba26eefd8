//! Everything that can go wrong in a bridge, and how much it matters.

use crate::completion::{error_message, CompletionError, CompletionErrorView};
use crate::config::ConfigError;
use vstd::prelude::*;
use vstd::string::*;

verus! {

/// A failure of the bridge or of one of the services it talks to.
#[derive(Debug, PartialEq, Eq)]
pub enum BridgeError {
    /// No configuration could be made. The bridge cannot start.
    Config(ConfigError),
    /// The broker transport failed.
    Transport { detail: String },
    /// An exchange with the completion service produced no reply.
    Completion(CompletionError),
    /// A reply could not be published on `topic`. The reply is lost.
    Publish { topic: String, detail: String },
}

/// The mathematical content of a [`BridgeError`].
pub ghost enum BridgeErrorView {
    Config(ConfigError),
    Transport { detail: Seq<char> },
    Completion(CompletionErrorView),
    Publish { topic: Seq<char>, detail: Seq<char> },
}

impl View for BridgeError {
    type V = BridgeErrorView;

    open spec fn view(&self) -> BridgeErrorView {
        match self {
            BridgeError::Config(error) => BridgeErrorView::Config(*error),
            BridgeError::Transport { detail } => BridgeErrorView::Transport { detail: detail@ },
            BridgeError::Completion(error) => BridgeErrorView::Completion(error@),
            BridgeError::Publish { topic, detail } => BridgeErrorView::Publish {
                topic: topic@,
                detail: detail@,
            },
        }
    }
}

/// Only a failure to configure ends the bridge. Every other failure is
/// confined to the event during which it arose.
pub open spec fn fatal(error: BridgeErrorView) -> bool {
    error is Config
}

/// The line that reports a failure to an operator.
pub open spec fn diagnostic(error: BridgeErrorView) -> Seq<char> {
    match error {
        BridgeErrorView::Config(ConfigError::MissingCredential) =>
            "OPENAI_API_KEY or OPENROUTER_API_KEY environment variable must be set"@,
        BridgeErrorView::Transport { detail } => "MQTT error: "@ + detail,
        BridgeErrorView::Completion(error) => "OpenAI API call failed: "@ + error_message(error),
        BridgeErrorView::Publish { topic, detail } => "Failed to publish to "@ + topic + ": "@
            + detail,
    }
}

impl BridgeError {
    /// True when the bridge cannot go on after this failure, which is so for
    /// a failure to configure and for no other.
    pub fn is_fatal(&self) -> (is_fatal: bool)
        ensures
            is_fatal == fatal(self@),
    {
        match self {
            BridgeError::Config(_) => true,
            _ => false,
        }
    }

    /// The line that reports this failure to an operator: what failed,
    /// followed by the detail as it was reported.
    pub fn message(&self) -> (text: String)
        ensures
            text@ == diagnostic(self@),
    {
        match self {
            BridgeError::Config(ConfigError::MissingCredential) => {
                "OPENAI_API_KEY or OPENROUTER_API_KEY environment variable must be set".to_owned()
            },
            BridgeError::Transport { detail } => {
                let mut text = "MQTT error: ".to_owned();
                text.append(detail.as_str());
                text
            },
            BridgeError::Completion(error) => {
                let mut text = "OpenAI API call failed: ".to_owned();
                text.append(error.message().as_str());
                text
            },
            BridgeError::Publish { topic, detail } => {
                let mut text = "Failed to publish to ".to_owned();
                text.append(topic.as_str());
                text.append(": ");
                text.append(detail.as_str());
                text
            },
        }
    }
}

} // verus!
