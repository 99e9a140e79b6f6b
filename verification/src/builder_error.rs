//! The errors the content builder service answers with.

use vstd::prelude::*;

verus! {

/// An error of the content builder service.
#[derive(Clone, Copy, Debug, PartialEq, Eq, Structural)]
pub enum ContentBuilderCustomResponseError {
    InternalError,
    BadHeaderData,
    BadClientData,
    NotFound,
    NotAllowed,
}

/// The HTTP status an error is answered with.
pub open spec fn builder_error_status(e: ContentBuilderCustomResponseError) -> u16 {
    match e {
        ContentBuilderCustomResponseError::InternalError => 500,
        ContentBuilderCustomResponseError::BadClientData => 400,
        ContentBuilderCustomResponseError::NotFound => 404,
        ContentBuilderCustomResponseError::BadHeaderData => 403,
        ContentBuilderCustomResponseError::NotAllowed => 403,
    }
}

/// The message an error is shown with.
pub open spec fn builder_error_message(e: ContentBuilderCustomResponseError) -> Seq<char> {
    match e {
        ContentBuilderCustomResponseError::InternalError => "internal error !"@,
        ContentBuilderCustomResponseError::BadHeaderData => "Bad Header Data Forbidden !"@,
        ContentBuilderCustomResponseError::BadClientData => "Bad Client Data !"@,
        ContentBuilderCustomResponseError::NotFound => "Category not Found!"@,
        ContentBuilderCustomResponseError::NotAllowed => "User not Allowed!"@,
    }
}

impl ContentBuilderCustomResponseError {
    /// The HTTP status code of the error.
    pub fn status_code(&self) -> (res: u16)
        ensures
            res == builder_error_status(*self),
    {
        match self {
            ContentBuilderCustomResponseError::InternalError => 500,
            ContentBuilderCustomResponseError::BadClientData => 400,
            ContentBuilderCustomResponseError::NotFound => 404,
            ContentBuilderCustomResponseError::BadHeaderData => 403,
            ContentBuilderCustomResponseError::NotAllowed => 403,
        }
    }

    /// The message of the error.
    pub fn message(&self) -> (res: String)
        ensures
            res@ == builder_error_message(*self),
    {
        let s = match self {
            ContentBuilderCustomResponseError::InternalError => "internal error !",
            ContentBuilderCustomResponseError::BadHeaderData => "Bad Header Data Forbidden !",
            ContentBuilderCustomResponseError::BadClientData => "Bad Client Data !",
            ContentBuilderCustomResponseError::NotFound => "Category not Found!",
            ContentBuilderCustomResponseError::NotAllowed => "User not Allowed!",
        };
        s.to_owned()
    }

    /// The body of the error answer, given the text of its status line.
    pub fn error_response(&self, status_line: String) -> (res: ErrorResponse)
        ensures
            res.status_code == status_line,
            res.msg@ == builder_error_message(*self),
    {
        ErrorResponse { status_code: status_line, msg: self.message() }
    }
}

/// The body of an error answer.
pub struct ErrorResponse {
    pub status_code: String,
    pub msg: String,
}

} // verus!
