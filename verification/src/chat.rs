//! The chat request pipeline: the request built for the downstream
//! chat-completion API, the shape of its response, and the extraction of the
//! reply text.
//!
//! The downstream call itself is network I/O and is performed by the caller
//! that runs the event loop; this module states exactly what is sent (a
//! single user-role message and the configured model) and what reply every
//! possible outcome of the call produces.

use vstd::prelude::*;
use vstd::string::StringExecFns;

verus! {

/// Spec-level image of a [`ChatRequest`].
#[verifier::ext_equal]
pub struct ChatRequestView {
    pub model: Seq<char>,
    pub text: Seq<char>,
}

/// A single-message chat request: one user-role message containing the raw
/// input text, requesting the given model.
pub struct ChatRequest {
    pub model: String,
    pub text: String,
}

impl View for ChatRequest {
    type V = ChatRequestView;

    open spec fn view(&self) -> ChatRequestView {
        ChatRequestView { model: self.model@, text: self.text@ }
    }
}

/// One choice of a downstream response: its message content, if any.
pub struct ChatChoice {
    pub content: Option<String>,
}

impl View for ChatChoice {
    type V = Option<Seq<char>>;

    open spec fn view(&self) -> Option<Seq<char>> {
        match self.content {
            Some(ref s) => Some(s@),
            None => None,
        }
    }
}

/// A downstream response: the list of choices it carries.
pub struct ChatResponse {
    pub choices: Vec<ChatChoice>,
}

impl View for ChatResponse {
    type V = Seq<Option<Seq<char>>>;

    open spec fn view(&self) -> Seq<Option<Seq<char>>> {
        self.choices@.map_values(|c: ChatChoice| c@)
    }
}

/// All downstream failures are collapsed into one kind carrying a
/// human-readable description.
#[derive(Debug)]
pub enum CoreError {
    Unknown(String),
}

impl View for CoreError {
    type V = Seq<char>;

    open spec fn view(&self) -> Seq<char> {
        match self {
            CoreError::Unknown(s) => s@,
        }
    }
}

impl CoreError {
    pub fn description(&self) -> (r: &String)
        ensures
            r@ == self@,
    {
        match self {
            CoreError::Unknown(s) => s,
        }
    }
}

/// Wraps any failure description as the one downstream error kind.
pub fn unknown_error(err: String) -> (r: CoreError)
    ensures
        r@ == err@,
{
    CoreError::Unknown(err)
}

/// The description used when the downstream call succeeded but returned no
/// reply text.
pub open spec fn missing_content_text() -> Seq<char> {
    "The remote chat AI response failed"@
}

/// The reply text a response yields: the first choice's content, or the
/// missing-content error when the response carries none.
pub open spec fn reply_of_response(choices: Seq<Option<Seq<char>>>) -> Result<Seq<char>, Seq<char>> {
    if choices.len() > 0 && choices[0] is Some {
        Ok(choices[0]->0)
    } else {
        Err(missing_content_text())
    }
}

/// Extracts the first choice's message text from a response. A response with
/// no choices or no content is a request-level error, never a panic.
pub fn extract_reply(response: &ChatResponse) -> (r: Result<String, CoreError>)
    ensures
        r is Ok <==> reply_of_response(response@) is Ok,
        r is Ok ==> r->Ok_0@ == reply_of_response(response@)->Ok_0,
        r is Err ==> r->Err_0@ == reply_of_response(response@)->Err_0,
{
    if response.choices.len() > 0 {
        match response.choices[0].content {
            Some(ref content) => Ok(content.clone()),
            None => Err(unknown_error(String::from_str("The remote chat AI response failed"))),
        }
    } else {
        Err(unknown_error(String::from_str("The remote chat AI response failed")))
    }
}

/// The reply sent back for an error: the description behind an error
/// indicator.
pub open spec fn error_reply_spec(msg: Seq<char>) -> Seq<char> {
    "Error occurred: "@ + msg
}

/// Formats an error as the reply sent back to the user.
pub fn error_reply(err: &CoreError) -> (r: String)
    ensures
        r@ == error_reply_spec(err@),
{
    String::from_str("Error occurred: ").concat(err.description().as_str())
}

/// The reply every outcome of the downstream call produces: the extracted
/// text on success, and an error-indicator reply on a failed call or a
/// response with no content.
pub open spec fn chat_reply_spec(outcome: Result<Seq<Option<Seq<char>>>, Seq<char>>) -> Seq<char> {
    match outcome {
        Ok(choices) => match reply_of_response(choices) {
            Ok(text) => text,
            Err(msg) => error_reply_spec(msg),
        },
        Err(msg) => error_reply_spec(msg),
    }
}

/// Turns the outcome of the downstream call into the reply to send: the
/// reply text when one is present, an error reply otherwise. Total: every
/// outcome yields a reply, never a panic.
pub fn chat_outcome_reply(outcome: Result<ChatResponse, String>) -> (r: String)
    ensures
        outcome is Ok ==> r@ == chat_reply_spec(Ok(outcome->Ok_0@)),
        outcome is Err ==> r@ == chat_reply_spec(Err(outcome->Err_0@)),
{
    match outcome {
        Ok(response) => match extract_reply(&response) {
            Ok(text) => text,
            Err(err) => error_reply(&err),
        },
        Err(msg) => error_reply(&unknown_error(msg)),
    }
}

} // verus!
