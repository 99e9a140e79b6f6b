//! The errors the authentication service answers with.

use vstd::prelude::*;

verus! {

/// An error of the authentication service.
#[derive(Clone, Copy, Debug, PartialEq, Eq, Structural)]
pub enum UserCustomResponseError {
    InternalError,
    BadHeaderData,
    BadClientData,
    NotFound,
    AlreadyExist,
    NotAllowed,
}

/// The HTTP status an error is answered with.
pub open spec fn auth_error_status(e: UserCustomResponseError) -> u16 {
    match e {
        UserCustomResponseError::InternalError => 500,
        UserCustomResponseError::BadClientData => 400,
        UserCustomResponseError::NotFound => 404,
        UserCustomResponseError::BadHeaderData => 403,
        UserCustomResponseError::AlreadyExist => 409,
        UserCustomResponseError::NotAllowed => 403,
    }
}

/// The message an error is shown with.
pub open spec fn auth_error_message(e: UserCustomResponseError) -> Seq<char> {
    match e {
        UserCustomResponseError::InternalError => "internal error !"@,
        UserCustomResponseError::BadHeaderData => "Bad Header Data Forbidden !"@,
        UserCustomResponseError::BadClientData => "Bad Client Data !"@,
        UserCustomResponseError::NotFound => "User not Found!"@,
        UserCustomResponseError::AlreadyExist => "User Already Exist!"@,
        UserCustomResponseError::NotAllowed => "User not Allowed!"@,
    }
}

impl UserCustomResponseError {
    /// The HTTP status code of the error.
    pub fn status_code(&self) -> (res: u16)
        ensures
            res == auth_error_status(*self),
    {
        match self {
            UserCustomResponseError::InternalError => 500,
            UserCustomResponseError::BadClientData => 400,
            UserCustomResponseError::NotFound => 404,
            UserCustomResponseError::BadHeaderData => 403,
            UserCustomResponseError::AlreadyExist => 409,
            UserCustomResponseError::NotAllowed => 403,
        }
    }

    /// The message of the error.
    pub fn message(&self) -> (res: String)
        ensures
            res@ == auth_error_message(*self),
    {
        let s = match self {
            UserCustomResponseError::InternalError => "internal error !",
            UserCustomResponseError::BadHeaderData => "Bad Header Data Forbidden !",
            UserCustomResponseError::BadClientData => "Bad Client Data !",
            UserCustomResponseError::NotFound => "User not Found!",
            UserCustomResponseError::AlreadyExist => "User Already Exist!",
            UserCustomResponseError::NotAllowed => "User not Allowed!",
        };
        s.to_owned()
    }

    /// The body of the error answer, given the text of its status line.
    pub fn error_response(&self, status_line: String) -> (res: ErrorResponse)
        ensures
            res.status_code == status_line,
            res.msg@ == auth_error_message(*self),
    {
        ErrorResponse { status_code: status_line, msg: self.message() }
    }
}

/// The body of an error answer.
pub struct ErrorResponse {
    pub status_code: String,
    pub msg: String,
}

} // verus!
