use vstd::prelude::*;
use crate::completion::CompletionError;

verus! {

/// The reply to the calling terminal.
#[derive(Clone, Debug)]
pub enum AnalysisResponse {
    Success { symbol: String, analysis: String },
    Failure { message: String },
}

impl AnalysisResponse {
    /// `"success"` or `"error"`.
    pub fn status(&self) -> (r: &'static str)
        ensures
            self is Success ==> r@ == "success"@,
            self is Failure ==> r@ == "error"@,
    {
        match self {
            AnalysisResponse::Success { .. } => "success",
            AnalysisResponse::Failure { .. } => "error",
        }
    }
}

/// Maps a completion outcome to the reply: the analysis with the primary
/// symbol echoed, or the error's message. Nothing else (in particular not
/// whether the audit copy was written) has a say in it.
pub fn respond(symbol: &str, outcome: Result<String, CompletionError>) -> (r: AnalysisResponse)
    ensures
        match outcome {
            Ok(a) => (r matches AnalysisResponse::Success { symbol: s, analysis: t }
                && s@ == symbol@ && t@ == a@),
            Err(e) => (r matches AnalysisResponse::Failure { message: m } && m@ == e.message_text()),
        },
{
    match outcome {
        Ok(a) => AnalysisResponse::Success { symbol: String::from_str(symbol), analysis: a },
        Err(e) => AnalysisResponse::Failure { message: e.message() },
    }
}

} // verus!
