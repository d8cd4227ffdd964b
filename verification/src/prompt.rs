//! What is asked of the completion service, and what is taken from its answer.

use vstd::prelude::*;
use vstd::string::StringExecFns;
use crate::model::{Exercise, ExerciseView, GenerationError};

verus! {

/// Who speaks in a message of a completion request.
#[derive(Clone, Copy, Debug, PartialEq, Eq, Structural)]
pub enum Role {
    System,
    User,
}

/// One role-tagged message of a completion request.
#[derive(Debug, PartialEq, Eq)]
pub struct ChatMessage {
    pub role: Role,
    pub content: String,
}

impl View for ChatMessage {
    type V = (Role, Seq<char>);

    open spec fn view(&self) -> (Role, Seq<char>) {
        (self.role, self.content@)
    }
}

/// A request to the completion service: the model and the ordered messages.
#[derive(Debug, PartialEq, Eq)]
pub struct CompletionRequest {
    pub model: String,
    pub messages: Vec<ChatMessage>,
}

/// A completion request as plain text.
pub struct CompletionRequestView {
    pub model: Seq<char>,
    pub messages: Seq<(Role, Seq<char>)>,
}

impl View for CompletionRequest {
    type V = CompletionRequestView;

    open spec fn view(&self) -> CompletionRequestView {
        CompletionRequestView {
            model: self.model@,
            messages: Seq::new(self.messages@.len(), |i: int| self.messages@[i]@),
        }
    }
}

/// What came back from the completion service.
#[derive(Debug, PartialEq, Eq)]
pub enum Completion {
    /// The call itself failed.
    Failed,
    /// A response came that could not be decoded.
    Undecodable,
    /// The content of each returned choice, in order; `None` for a choice
    /// that came without content.
    Choices(Vec<Option<String>>),
}

/// What came back from the completion service, as plain text.
pub enum CompletionView {
    Failed,
    Undecodable,
    Choices(Seq<Option<Seq<char>>>),
}

impl View for Completion {
    type V = CompletionView;

    open spec fn view(&self) -> CompletionView {
        match self {
            Completion::Failed => CompletionView::Failed,
            Completion::Undecodable => CompletionView::Undecodable,
            Completion::Choices(v) => CompletionView::Choices(
                Seq::new(v@.len(), |i: int| content_view(v@[i])),
            ),
        }
    }
}

/// The content of a choice taken by its view.
pub open spec fn content_view(content: Option<String>) -> Option<Seq<char>> {
    match content {
        Some(s) => Some(s@),
        None => None,
    }
}

/// The model that every request names.
pub open spec fn model_id() -> Seq<char> {
    "gpt-3.5-turbo"@
}

/// The instruction that opens every request.
pub open spec fn instruction() -> Seq<char> {
    "Solve the provided problem by editing the provided java method. Only respond with the unformatted code and nothing else."@
}

/// The statement, a line break, and the starter code.
pub open spec fn user_content(e: ExerciseView) -> Seq<char> {
    e.statement + "\n"@ + e.starter
}

/// The request for one exercise: the instruction as the system's message,
/// then statement and starter code as the user's.
pub open spec fn request_for(e: ExerciseView) -> CompletionRequestView {
    CompletionRequestView {
        model: model_id(),
        messages: seq![(Role::System, instruction()), (Role::User, user_content(e))],
    }
}

/// The solution that a completion stands for: the content of the first
/// choice, as it came. A first choice without content is a response that
/// does not decode to a solution; nothing is put in its place.
pub open spec fn chosen(c: CompletionView) -> Result<Seq<char>, GenerationError> {
    match c {
        CompletionView::Failed => Err(GenerationError::ServiceFailed),
        CompletionView::Undecodable => Err(GenerationError::Undecodable),
        CompletionView::Choices(choices) => if choices.len() == 0 {
            Err(GenerationError::NoChoices)
        } else {
            match choices[0] {
                Some(code) => Ok(code),
                None => Err(GenerationError::Undecodable),
            }
        },
    }
}

/// The outcome of a generation with the code taken by its view.
pub open spec fn code_view(r: Result<String, GenerationError>) -> Result<
    Seq<char>,
    GenerationError,
> {
    match r {
        Ok(s) => Ok(s@),
        Err(e) => Err(e),
    }
}

/// Builds the completion request for one exercise.
pub fn completion_request(exercise: &Exercise) -> (r: CompletionRequest)
    ensures
        r@ == request_for(exercise@),
{
    let system = ChatMessage {
        role: Role::System,
        content: String::from_str(
            "Solve the provided problem by editing the provided java method. Only respond with the unformatted code and nothing else.",
        ),
    };
    let content = exercise.statement.clone().concat("\n").concat(exercise.starter.as_str());
    let user = ChatMessage { role: Role::User, content };
    let mut messages: Vec<ChatMessage> = Vec::new();
    messages.push(system);
    messages.push(user);
    let r = CompletionRequest { model: String::from_str("gpt-3.5-turbo"), messages };
    assert(r@.messages =~= request_for(exercise@).messages);
    r
}

/// Takes the solution out of what the completion service gave: the first
/// choice, unchanged.
pub fn solution_from(completion: Completion) -> (r: Result<String, GenerationError>)
    ensures
        code_view(r) == chosen(completion@),
{
    match completion {
        Completion::Failed => Err(GenerationError::ServiceFailed),
        Completion::Undecodable => Err(GenerationError::Undecodable),
        Completion::Choices(choices) => {
            if choices.len() == 0 {
                Err(GenerationError::NoChoices)
            } else {
                match &choices[0] {
                    Some(code) => Ok(code.clone()),
                    None => Err(GenerationError::Undecodable),
                }
            }
        },
    }
}

} // verus!
