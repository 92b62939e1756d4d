//! The correction capability and its error taxonomy.
//!
//! [`LlmCorrector`] abstracts any backend that turns a raw transcript (plus
//! optional context) into corrected text; the orchestrator is decoupled from
//! a particular vendor through it.  [`extract_correction`] is the verified
//! tail of an HTTP-based corrector: it judges whatever text content the
//! transport handed back.

use vstd::prelude::*;

use crate::prompt::view_opt_str;
use crate::text::{spec_trim, trim_spaces, TextModel};

verus! {

/// Errors that can occur during LLM correction.  Callers treat all of them
/// uniformly as "correction unavailable".
#[derive(Debug, Clone, PartialEq)]
pub enum LlmError {
    /// HTTP transport or connection error.
    Request(String),
    /// The request did not complete within the configured timeout.
    Timeout,
    /// The response could not be parsed as expected.
    Parse(String),
    /// The backend returned a response with no usable text content.
    EmptyResponse,
}

impl LlmError {
    /// Human-readable description.
    pub fn message(&self) -> (r: String)
        ensures
            r@ == self.spec_message(),
    {
        match self {
            LlmError::Request(m) => {
                let mut s = String::new();
                s.append("HTTP request failed: ");
                s.append(m.as_str());
                s
            },
            LlmError::Timeout => "LLM request timed out".to_owned(),
            LlmError::Parse(m) => {
                let mut s = String::new();
                s.append("failed to parse LLM response: ");
                s.append(m.as_str());
                s
            },
            LlmError::EmptyResponse => "LLM returned an empty response".to_owned(),
        }
    }

    /// The text [`message`](Self::message) returns.
    pub open spec fn spec_message(&self) -> Seq<char> {
        match self {
            LlmError::Request(m) => "HTTP request failed: "@ + m@,
            LlmError::Timeout => "LLM request timed out"@,
            LlmError::Parse(m) => "failed to parse LLM response: "@ + m@,
            LlmError::EmptyResponse => "LLM returned an empty response"@,
        }
    }
}

/// The view of a correction result: text by its characters, errors as they
/// are.
pub open spec fn correction_view(r: Result<String, LlmError>) -> Result<Seq<char>, LlmError> {
    match r {
        Ok(s) => Ok(s@),
        Err(e) => Err(e),
    }
}

/// A capability that corrects raw transcript text, optionally conditioned
/// on a context string.  Implementations fix what one call returns through
/// [`correct_spec`](Self::correct_spec), so callers can reason about the
/// outcome per implementation.
pub trait LlmCorrector {
    /// What `correct` returns for the given transcript and context.
    spec fn correct_spec(&self, raw: TextModel, context: Option<TextModel>) -> Result<
        TextModel,
        LlmError,
    >;

    /// Correct `raw`, optionally conditioned on `context`.
    fn correct(&self, raw: &str, context: Option<&str>) -> (r: Result<String, LlmError>)
        ensures
            correction_view(r) == self.correct_spec(raw@, view_opt_str(context)),
    ;
}

/// The outcome for the text content a correction transport returned: no
/// content at all, or only whitespace, is an empty response; anything else
/// is the corrected text, trimmed.
pub open spec fn spec_extract_correction(content: Option<Seq<char>>) -> Result<
    Seq<char>,
    LlmError,
> {
    match content {
        None => Err(LlmError::EmptyResponse),
        Some(s) => {
            if spec_trim(s).len() == 0 {
                Err(LlmError::EmptyResponse)
            } else {
                Ok(spec_trim(s))
            }
        },
    }
}

/// Judge the text content a correction transport handed back: `None` or a
/// blank string is [`LlmError::EmptyResponse`]; otherwise the trimmed text
/// is the correction.
pub fn extract_correction(content: Option<String>) -> (r: Result<String, LlmError>)
    ensures
        correction_view(r) == spec_extract_correction(
            match content {
                Some(s) => Some(s@),
                None => None,
            },
        ),
{
    match content {
        None => Err(LlmError::EmptyResponse),
        Some(s) => {
            let trimmed = trim_spaces(s.as_str());
            if trimmed.as_str().is_empty() {
                Err(LlmError::EmptyResponse)
            } else {
                Ok(trimmed)
            }
        },
    }
}

/// A stub corrector that returns a pre-configured response: the
/// deterministic and always-failing test doubles the pipeline is exercised
/// with.
pub struct MockCorrector {
    response: Result<String, LlmError>,
}

impl MockCorrector {
    /// The configured response.
    pub closed spec fn spec_response(&self) -> Result<Seq<char>, LlmError> {
        correction_view(self.response)
    }

    /// A stub that corrects every transcript to `text`.
    pub fn ok(text: &str) -> (r: Self)
        ensures
            r.spec_response() == Ok::<Seq<char>, LlmError>(text@),
    {
        MockCorrector { response: Ok(text.to_owned()) }
    }

    /// A stub that fails every correction with `error`.
    pub fn err(error: LlmError) -> (r: Self)
        ensures
            r.spec_response() == Err::<Seq<char>, LlmError>(error),
    {
        MockCorrector { response: Err(error) }
    }
}

impl LlmCorrector for MockCorrector {
    /// The configured response, whatever the input.
    open spec fn correct_spec(&self, raw: Seq<char>, context: Option<Seq<char>>) -> Result<
        Seq<char>,
        LlmError,
    > {
        self.spec_response()
    }

    fn correct(&self, raw: &str, context: Option<&str>) -> (r: Result<String, LlmError>) {
        match &self.response {
            Ok(text) => Ok(text.clone()),
            Err(LlmError::Request(m)) => Err(LlmError::Request(m.clone())),
            Err(LlmError::Timeout) => Err(LlmError::Timeout),
            Err(LlmError::Parse(m)) => Err(LlmError::Parse(m.clone())),
            Err(LlmError::EmptyResponse) => Err(LlmError::EmptyResponse),
        }
    }
}

} // verus!
