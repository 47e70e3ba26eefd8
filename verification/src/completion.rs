//! One exchange with the chat-completion service: the request that is sent
//! and the meaning of what comes back.

use crate::message::{views, ConversationMessage, MessageView};
use vstd::prelude::*;

verus! {

/// The sampling temperature of every request, in tenths: 7 stands for 0.7.
pub const TEMPERATURE_TENTHS: u32 = 7;

/// Why an exchange produced no reply.
#[derive(Debug, PartialEq, Eq)]
pub enum CompletionError {
    /// The service answered with no choice at all.
    EmptyChoice,
    /// The first choice carries no text.
    NoContent,
    /// The exchange itself failed; `detail` is what the transport reported.
    Transport { detail: String },
}

/// The mathematical content of a [`CompletionError`].
pub ghost enum CompletionErrorView {
    EmptyChoice,
    NoContent,
    Transport { detail: Seq<char> },
}

impl View for CompletionError {
    type V = CompletionErrorView;

    open spec fn view(&self) -> CompletionErrorView {
        match self {
            CompletionError::EmptyChoice => CompletionErrorView::EmptyChoice,
            CompletionError::NoContent => CompletionErrorView::NoContent,
            CompletionError::Transport { detail } => CompletionErrorView::Transport {
                detail: detail@,
            },
        }
    }
}

/// The text that describes an error to an operator.
pub open spec fn error_message(error: CompletionErrorView) -> Seq<char> {
    match error {
        CompletionErrorView::EmptyChoice => "No response from OpenAI API"@,
        CompletionErrorView::NoContent => "Empty response from OpenAI API"@,
        CompletionErrorView::Transport { detail } => detail,
    }
}

impl CompletionError {
    /// The text that describes this error to an operator. A transport
    /// failure is described by its own detail, unchanged.
    pub fn message(&self) -> (text: String)
        ensures
            text@ == error_message(self@),
    {
        match self {
            CompletionError::EmptyChoice => "No response from OpenAI API".to_owned(),
            CompletionError::NoContent => "Empty response from OpenAI API".to_owned(),
            CompletionError::Transport { detail } => detail.clone(),
        }
    }
}

impl Clone for CompletionError {
    /// A copy of this error, with the same detail.
    fn clone(&self) -> (copy: Self)
        ensures
            copy@ == self@,
    {
        match self {
            CompletionError::EmptyChoice => CompletionError::EmptyChoice,
            CompletionError::NoContent => CompletionError::NoContent,
            CompletionError::Transport { detail } => CompletionError::Transport {
                detail: detail.clone(),
            },
        }
    }
}

/// What is sent to the service: the model, the whole history as ordered
/// turns, and the sampling temperature.
#[derive(Debug, PartialEq, Eq)]
pub struct CompletionRequest {
    model: String,
    turns: Vec<ConversationMessage>,
    temperature_tenths: u32,
}

/// The mathematical content of a [`CompletionRequest`].
pub ghost struct RequestView {
    pub model: Seq<char>,
    pub turns: Seq<MessageView>,
    pub temperature_tenths: nat,
}

impl View for CompletionRequest {
    type V = RequestView;

    closed spec fn view(&self) -> RequestView {
        RequestView {
            model: self.model@,
            turns: views(self.turns@),
            temperature_tenths: self.temperature_tenths as nat,
        }
    }
}

/// The request that carries `history` to `model`.
pub open spec fn request_for(history: Seq<MessageView>, model: Seq<char>) -> RequestView {
    RequestView { model, turns: history, temperature_tenths: TEMPERATURE_TENTHS as nat }
}

impl CompletionRequest {
    /// The request for a completion of `history` by `model`: every turn of
    /// the history in its order, at the fixed temperature.
    pub fn new(history: Vec<ConversationMessage>, model: &str) -> (request: Self)
        ensures
            request@ == request_for(views(history@), model@),
    {
        CompletionRequest {
            model: model.to_owned(),
            turns: history,
            temperature_tenths: TEMPERATURE_TENTHS,
        }
    }

    /// The identifier of the model that is asked.
    pub fn model(&self) -> (model: &str)
        ensures
            model@ == self@.model,
    {
        self.model.as_str()
    }

    /// The turns that are sent, oldest first.
    pub fn turns(&self) -> (turns: &Vec<ConversationMessage>)
        ensures
            views(turns@) == self@.turns,
    {
        &self.turns
    }

    /// The sampling temperature in tenths.
    pub fn temperature_tenths(&self) -> (tenths: u32)
        ensures
            tenths == self@.temperature_tenths,
    {
        self.temperature_tenths
    }
}

/// The contents of the choices of a response: for each choice its text,
/// where it has one.
pub open spec fn choice_views(choices: Seq<Option<String>>) -> Seq<Option<Seq<char>>> {
    choices.map_values(
        |c: Option<String>|
            match c {
                Some(text) => Some(text@),
                None => None,
            },
    )
}

/// The reply that a list of choices stands for: the text of the first
/// choice, or the reason why there is none.
pub open spec fn reply_of(choices: Seq<Option<Seq<char>>>) -> Result<
    Seq<char>,
    CompletionErrorView,
> {
    if choices.len() == 0 {
        Err(CompletionErrorView::EmptyChoice)
    } else {
        match choices[0] {
            Some(text) => Ok(text),
            None => Err(CompletionErrorView::NoContent),
        }
    }
}

/// The reply that the outcome of an exchange stands for: that of the choices
/// where the exchange succeeded, a transport error with the reported detail
/// where it failed.
pub open spec fn outcome_of(outcome: Result<Seq<Option<Seq<char>>>, Seq<char>>) -> Result<
    Seq<char>,
    CompletionErrorView,
> {
    match outcome {
        Ok(choices) => reply_of(choices),
        Err(detail) => Err(CompletionErrorView::Transport { detail }),
    }
}

/// The contents of a reply.
pub open spec fn reply_view(reply: Result<String, CompletionError>) -> Result<
    Seq<char>,
    CompletionErrorView,
> {
    match reply {
        Ok(text) => Ok(text@),
        Err(error) => Err(error@),
    }
}

/// The contents of the outcome of an exchange.
pub open spec fn outcome_view(outcome: Result<Vec<Option<String>>, String>) -> Result<
    Seq<Option<Seq<char>>>,
    Seq<char>,
> {
    match outcome {
        Ok(choices) => Ok(choice_views(choices@)),
        Err(detail) => Err(detail@),
    }
}

/// Extracts the reply from the choices of a response: the text of the first
/// choice. An empty list gives `EmptyChoice`, a first choice without text
/// gives `NoContent`; later choices are never looked at.
pub fn first_choice_text(choices: &Vec<Option<String>>) -> (reply: Result<String, CompletionError>)
    ensures
        reply_view(reply) == reply_of(choice_views(choices@)),
{
    if choices.len() == 0 {
        Err(CompletionError::EmptyChoice)
    } else {
        assert(choice_views(choices@)[0] == match choices@[0] {
            Some(text) => Some(text@),
            None => None,
        });
        match &choices[0] {
            Some(text) => Ok(text.clone()),
            None => Err(CompletionError::NoContent),
        }
    }
}

/// Turns the outcome of one exchange into a reply. A response is read by
/// [`first_choice_text`]; a failed exchange becomes a transport error that
/// keeps the reported detail.
pub fn interpret_outcome(outcome: Result<Vec<Option<String>>, String>) -> (reply: Result<
    String,
    CompletionError,
>)
    ensures
        reply_view(reply) == outcome_of(outcome_view(outcome)),
{
    match outcome {
        Ok(choices) => first_choice_text(&choices),
        Err(detail) => Err(CompletionError::Transport { detail }),
    }
}

} // verus!
