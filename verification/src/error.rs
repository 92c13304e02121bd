//! Errors the API answers with: a stable code, an HTTP status and a message.

use vstd::prelude::*;
use vstd::string::*;

verus! {

/// Why a request for a section failed.
#[derive(Debug)]
pub enum ApiError {
    /// The profile has no section of this type.
    SectionNotFound(&'static str),
    /// The table could not be read.
    Dynamo(String),
    /// A stored or cached document did not have the expected shape.
    Deserialize(String),
}

/// The body of an error answer.
#[derive(Debug)]
pub struct ErrorBody {
    pub code: &'static str,
    pub message: String,
}

/// The machine-readable code of an error.
pub open spec fn error_code(e: ApiError) -> Seq<char> {
    match e {
        ApiError::SectionNotFound(_) => "section_not_found"@,
        ApiError::Dynamo(_) => "dynamo_error"@,
        ApiError::Deserialize(_) => "deserialize_error"@,
    }
}

/// The HTTP status of an error: 404 for a missing section, 500 otherwise.
pub open spec fn error_status(e: ApiError) -> u16 {
    match e {
        ApiError::SectionNotFound(_) => 404,
        ApiError::Dynamo(_) => 500,
        ApiError::Deserialize(_) => 500,
    }
}

/// The human-readable message of an error.
pub open spec fn error_message(e: ApiError) -> Seq<char> {
    match e {
        ApiError::SectionNotFound(section) => "section '"@ + section@ + "' not found"@,
        ApiError::Dynamo(detail) => "dynamodb error: "@ + detail@,
        ApiError::Deserialize(detail) => "deserialization error: "@ + detail@,
    }
}

impl ApiError {
    /// The machine-readable code.
    pub fn code(&self) -> (c: &'static str)
        ensures
            c@ == error_code(*self),
    {
        match self {
            ApiError::SectionNotFound(_) => "section_not_found",
            ApiError::Dynamo(_) => "dynamo_error",
            ApiError::Deserialize(_) => "deserialize_error",
        }
    }

    /// The HTTP status code.
    pub fn status_code(&self) -> (s: u16)
        ensures
            s == error_status(*self),
    {
        match self {
            ApiError::SectionNotFound(_) => 404,
            ApiError::Dynamo(_) | ApiError::Deserialize(_) => 500,
        }
    }

    /// Whether the status is a server error (5xx).
    pub fn is_server_error(&self) -> (b: bool)
        ensures
            b == (500 <= error_status(*self) < 600),
    {
        let s = self.status_code();
        500 <= s && s < 600
    }

    /// The human-readable message.
    pub fn message(&self) -> (m: String)
        ensures
            m@ == error_message(*self),
    {
        match self {
            ApiError::SectionNotFound(section) => {
                let mut m = String::from_str("section '");
                m.append(section);
                m.append("' not found");
                m
            },
            ApiError::Dynamo(detail) => {
                let mut m = String::from_str("dynamodb error: ");
                m.append(detail.as_str());
                m
            },
            ApiError::Deserialize(detail) => {
                let mut m = String::from_str("deserialization error: ");
                m.append(detail.as_str());
                m
            },
        }
    }

    /// The body of the error answer: the code and the message.
    pub fn error_body(&self) -> (b: ErrorBody)
        ensures
            b.code@ == error_code(*self),
            b.message@ == error_message(*self),
    {
        ErrorBody { code: self.code(), message: self.message() }
    }
}

/// Errors differ in code exactly when they differ in kind, and only a
/// missing section is answered with a client error.
pub proof fn lemma_error_kinds(a: ApiError, b: ApiError)
    ensures
        (error_code(a) == error_code(b)) == (a is SectionNotFound && b is SectionNotFound || a is Dynamo
            && b is Dynamo || a is Deserialize && b is Deserialize),
        (error_status(a) < 500) == (a is SectionNotFound),
{
    reveal_strlit("section_not_found");
    reveal_strlit("dynamo_error");
    reveal_strlit("deserialize_error");
    assert("section_not_found"@ != "dynamo_error"@) by {
        assert("section_not_found"@[0] != "dynamo_error"@[0]);
    }
    assert("section_not_found"@ != "deserialize_error"@) by {
        assert("section_not_found"@[0] != "deserialize_error"@[0]);
    }
    assert("dynamo_error"@ != "deserialize_error"@) by {
        assert("dynamo_error"@[1] != "deserialize_error"@[1]);
    }
}

} // verus!
