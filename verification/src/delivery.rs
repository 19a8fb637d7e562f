//! What a call of `log` asks of its caller, and how the call ends once the
//! caller reports what became of the request.

use vstd::prelude::*;
use crate::json::{document, Json};

verus! {

/// The text that `reqwest::StatusCode` displays for a status code: the
/// number and its reason phrase, such as `404 Not Found`. For a number that
/// is no status code, the text of reqwest's error for it.
pub uninterp spec fn status_display(status: int) -> Seq<char>;

/// `StatusCode::from_u16`, then the `Display` of the status code, or of the
/// error where the number is refused: the result is what `status_display`
/// names.
#[verifier::external_body]
fn status_text(status: u16) -> (line: String)
    ensures
        line@ == status_display(status as int),
{
    match reqwest::StatusCode::from_u16(status) {
        Ok(code) => code.to_string(),
        Err(refused) => refused.to_string(),
    }
}

/// Whether an HTTP status says that the request was accepted: 200 to 299.
pub open spec fn accepted(status: u16) -> bool {
    200 <= status < 300
}

/// Whether an HTTP status says that the request was accepted.
pub fn is_success(status: u16) -> (yes: bool)
    ensures
        yes == accepted(status),
{
    200 <= status && status < 300
}

/// Why a message was not delivered.
#[derive(Debug)]
pub enum DeliveryError {
    /// No response was received; `reason` is the transport's own account.
    Transport { reason: String },
    /// A response came, with a status outside 200 to 299.
    HttpStatus { status: u16 },
}

/// A `DeliveryError` as a mathematical value.
pub enum DeliveryErrorModel {
    Transport { reason: Seq<char> },
    HttpStatus { status: u16 },
}

impl View for DeliveryError {
    type V = DeliveryErrorModel;

    open spec fn view(&self) -> DeliveryErrorModel {
        match self {
            DeliveryError::Transport { reason } => DeliveryErrorModel::Transport { reason: reason@ },
            DeliveryError::HttpStatus { status } => DeliveryErrorModel::HttpStatus { status: *status },
        }
    }
}

impl DeliveryErrorModel {
    /// The sentence that tells the error.
    pub open spec fn message(self) -> Seq<char> {
        match self {
            DeliveryErrorModel::Transport { reason } => reason,
            DeliveryErrorModel::HttpStatus { status } => "HTTP error! status: "@ + status_display(
                status as int,
            ),
        }
    }
}

impl DeliveryError {
    /// The sentence that tells the error.
    pub fn message(&self) -> (sentence: String)
        ensures
            sentence@ == self@.message(),
    {
        match self {
            DeliveryError::Transport { reason } => reason.clone(),
            DeliveryError::HttpStatus { status } => {
                let mut sentence = String::from_str("HTTP error! status: ");
                let line = status_text(*status);
                sentence.append(line.as_str());
                sentence
            },
        }
    }
}

/// The end of a call: what to print, and what to return.
#[derive(Debug)]
pub struct Completion {
    /// A line for the error stream, if any.
    pub warning: Option<String>,
    /// A line for the standard output stream, if any.
    pub confirmation: Option<String>,
    pub result: Result<(), DeliveryError>,
}

/// A `Completion` as a mathematical value.
pub struct CompletionModel {
    pub warning: Option<Seq<char>>,
    pub confirmation: Option<Seq<char>>,
    pub result: Result<(), DeliveryErrorModel>,
}

impl View for Completion {
    type V = CompletionModel;

    open spec fn view(&self) -> CompletionModel {
        CompletionModel {
            warning: self.warning.deep_view(),
            confirmation: self.confirmation.deep_view(),
            result: match self.result {
                Ok(()) => Ok(()),
                Err(error) => Err(error@),
            },
        }
    }
}

/// What became of a request.
#[derive(Debug)]
pub enum PostOutcome {
    /// A response came back with this HTTP status.
    Status(u16),
    /// No response came back; the text is the transport's own account.
    TransportFailure(String),
}

/// A `PostOutcome` as a mathematical value.
pub enum PostOutcomeModel {
    Status(u16),
    TransportFailure(Seq<char>),
}

impl View for PostOutcome {
    type V = PostOutcomeModel;

    open spec fn view(&self) -> PostOutcomeModel {
        match self {
            PostOutcome::Status(status) => PostOutcomeModel::Status(*status),
            PostOutcome::TransportFailure(reason) => PostOutcomeModel::TransportFailure(reason@),
        }
    }
}

/// One HTTP POST that is to be made: `body` as JSON to `url`.
#[derive(Debug)]
pub struct PostRequest {
    pub url: String,
    pub body: serde_json::Value,
    /// The title of the message as the caller gave it.
    pub title: String,
}

/// A `PostRequest` as a mathematical value.
pub struct PostRequestModel {
    pub url: Seq<char>,
    pub body: Json,
    pub title: Seq<char>,
}

impl View for PostRequest {
    type V = PostRequestModel;

    open spec fn view(&self) -> PostRequestModel {
        PostRequestModel { url: self.url@, body: document(self.body), title: self.title@ }
    }
}

impl PostRequestModel {
    /// The line that confirms the delivery.
    pub open spec fn confirmation(self) -> Seq<char> {
        "Message sent to Discord: "@ + self.title
    }

    /// How the call ends for each outcome of the request: a confirmation and
    /// success on an accepted status, else the error and nothing to print.
    pub open spec fn complete(self, outcome: PostOutcomeModel) -> CompletionModel {
        match outcome {
            PostOutcomeModel::Status(status) => if accepted(status) {
                CompletionModel {
                    warning: None,
                    confirmation: Some(self.confirmation()),
                    result: Ok(()),
                }
            } else {
                CompletionModel {
                    warning: None,
                    confirmation: None,
                    result: Err(DeliveryErrorModel::HttpStatus { status }),
                }
            },
            PostOutcomeModel::TransportFailure(reason) => CompletionModel {
                warning: None,
                confirmation: None,
                result: Err(DeliveryErrorModel::Transport { reason }),
            },
        }
    }
}

impl PostRequest {
    /// Ends the call once the request has been tried.
    pub fn complete(&self, outcome: PostOutcome) -> (completion: Completion)
        ensures
            completion@ == self@.complete(outcome@),
    {
        match outcome {
            PostOutcome::Status(status) => {
                if is_success(status) {
                    let mut line = String::from_str("Message sent to Discord: ");
                    line.append(self.title.as_str());
                    Completion { warning: None, confirmation: Some(line), result: Ok(()) }
                } else {
                    Completion {
                        warning: None,
                        confirmation: None,
                        result: Err(DeliveryError::HttpStatus { status }),
                    }
                }
            },
            PostOutcome::TransportFailure(reason) => Completion {
                warning: None,
                confirmation: None,
                result: Err(DeliveryError::Transport { reason }),
            },
        }
    }
}

/// What a call of `log` asks of its caller.
#[derive(Debug)]
pub enum LogAction {
    /// Nothing is to be sent: the call is over.
    Finished(Completion),
    /// The request is to be made once, and its outcome handed to
    /// `PostRequest::complete`.
    Post(PostRequest),
}

/// A `LogAction` as a mathematical value.
pub enum LogActionModel {
    Finished(CompletionModel),
    Post(PostRequestModel),
}

impl View for LogAction {
    type V = LogActionModel;

    open spec fn view(&self) -> LogActionModel {
        match self {
            LogAction::Finished(completion) => LogActionModel::Finished(completion@),
            LogAction::Post(request) => LogActionModel::Post(request@),
        }
    }
}

} // verus!
