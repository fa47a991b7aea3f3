use vstd::prelude::*;

use crate::error::AimitError;
use crate::models::GeminiModel;

verus! {

/// The generation endpoint, up to the credential that ends the address.
pub const GEMINI_ENDPOINT: &'static str = "https://generativelanguage.googleapis.com/v1beta/models/gemini-1.5-flash:generateContent?key=";

/// One piece of generated text.
#[derive(Debug, Clone)]
pub struct ResponsePart {
    pub text: String,
}

#[derive(Debug, Clone)]
pub struct ResponseContent {
    pub parts: Vec<ResponsePart>,
}

/// One answer the backend proposes.
#[derive(Debug, Clone)]
pub struct Candidate {
    pub content: ResponseContent,
}

/// The backend's answer to a generation request.
#[derive(Debug, Clone)]
pub struct Response {
    pub candidates: Vec<Candidate>,
}

/// The text of the first part of the first candidate, if the answer has one.
pub open spec fn first_text(r: Response) -> Option<Seq<char>> {
    if r.candidates@.len() > 0 && r.candidates@[0].content.parts@.len() > 0 {
        Some(r.candidates@[0].content.parts@[0].text@)
    } else {
        None
    }
}

/// Whether an HTTP status code is in the success range.
pub open spec fn is_success_status(code: u16) -> bool {
    200 <= code && code < 300
}

impl GeminiModel {
    /// The address a generation request is sent to, carrying the credential.
    pub fn endpoint(&self) -> (r: String)
        ensures
            r@ == GEMINI_ENDPOINT@ + self.key(),
    {
        let mut url = String::from_str(GEMINI_ENDPOINT);
        url.append(self.api_key());
        url
    }
}

impl Response {
    /// The commit message of an answer: the text of the first part of the
    /// first candidate. An answer without one is malformed.
    pub fn commit_message(&self) -> (r: Result<String, AimitError>)
        ensures
            match first_text(*self) {
                Some(t) => r is Ok && r->Ok_0@ == t,
                None => r is Err && r->Err_0 is MalformedResponse,
            },
    {
        if self.candidates.len() == 0 {
            return Err(AimitError::MalformedResponse);
        }
        let parts = &self.candidates[0].content.parts;
        if parts.len() == 0 {
            return Err(AimitError::MalformedResponse);
        }
        Ok(parts[0].text.clone())
    }
}

/// Accepts a status in the success range; any other is a backend status
/// error that carries the code.
pub fn check_status(code: u16) -> (r: Result<(), AimitError>)
    ensures
        is_success_status(code) ==> r is Ok,
        !is_success_status(code) ==> r is Err && r->Err_0 == AimitError::BackendStatusError(code),
{
    if 200 <= code && code < 300 {
        Ok(())
    } else {
        Err(AimitError::BackendStatusError(code))
    }
}

} // verus!
