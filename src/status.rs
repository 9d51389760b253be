use vstd::prelude::*;

verus! {

/// The outcome of a request, each with a fixed numeric code and reason phrase.
#[derive(Clone, Copy, Debug, PartialEq, Eq, Structural)]
pub enum HTTPResponse {
    Success,
    NotFound,
    ServerError,
}

impl HTTPResponse {
    /// The numeric status code.
    pub open spec fn spec_code(self) -> nat {
        match self {
            HTTPResponse::Success => 200,
            HTTPResponse::NotFound => 404,
            HTTPResponse::ServerError => 500,
        }
    }

    /// The reason phrase that follows the code on the status line.
    pub open spec fn reason(self) -> Seq<char> {
        match self {
            HTTPResponse::Success => "OK"@,
            HTTPResponse::NotFound => "NOT FOUND"@,
            HTTPResponse::ServerError => "SERVER ERROR"@,
        }
    }

    pub fn code(&self) -> (r: u16)
        ensures
            r as nat == self.spec_code(),
    {
        match self {
            HTTPResponse::Success => 200,
            HTTPResponse::NotFound => 404,
            HTTPResponse::ServerError => 500,
        }
    }

    /// The reason phrase of this status.
    pub fn status_code(&self) -> (r: &'static str)
        ensures
            r@ == self.reason(),
    {
        match self {
            HTTPResponse::Success => "OK",
            HTTPResponse::NotFound => "NOT FOUND",
            HTTPResponse::ServerError => "SERVER ERROR",
        }
    }
}

} // verus!
