//! The errors the GraphQL gateway answers with.

use vstd::prelude::*;

verus! {

/// An error of a gateway resolver about users (and, in practice, every resolver).
#[derive(Clone, Copy, Debug, PartialEq, Eq, Structural)]
pub enum UserCustomResponseError {
    NotFound,
    ServerError,
    NotAllowed,
    Conflict,
}

/// An error about categories.
#[derive(Clone, Copy, Debug, PartialEq, Eq, Structural)]
pub enum CategoryCustomResponseError {
    NotFound,
    ServerError,
    NotAllowed,
}

/// An error about features.
#[derive(Clone, Copy, Debug, PartialEq, Eq, Structural)]
pub enum FeatureCustomResponseError {
    NotFound,
    ServerError,
    NotAllowed,
}

/// An error about templates.
#[derive(Clone, Copy, Debug, PartialEq, Eq, Structural)]
pub enum TemplateCustomResponseError {
    NotFound,
    ServerError,
    NotAllowed,
}

/// An error about prototypes.
#[derive(Clone, Copy, Debug, PartialEq, Eq, Structural)]
pub enum ProtoTypeCustomResponseError {
    NotFound,
    ServerError,
    NotAllowed,
}

/// An error about projects.
#[derive(Clone, Copy, Debug, PartialEq, Eq, Structural)]
pub enum ProjectCustomResponseError {
    NotFound,
    ServerError,
    NotAllowed,
}

/// The message of "not found" errors.
pub open spec fn not_found_message() -> Seq<char> {
    "Could not find resource"@
}

/// The message of "server" errors.
pub open spec fn server_error_message() -> Seq<char> {
    "Server Error"@
}

/// The message of "not allowed" errors.
pub open spec fn not_allowed_message() -> Seq<char> {
    "Not Allowed"@
}

/// The message an error about users is shown with.
pub open spec fn user_error_message(e: UserCustomResponseError) -> Seq<char> {
    match e {
        UserCustomResponseError::NotFound => not_found_message(),
        UserCustomResponseError::ServerError => server_error_message(),
        UserCustomResponseError::NotAllowed => not_allowed_message(),
        UserCustomResponseError::Conflict => "Conflict"@,
    }
}

/// The `code` extension an error about users carries.
pub open spec fn user_error_code(e: UserCustomResponseError) -> Seq<char> {
    match e {
        UserCustomResponseError::NotFound => "NOT_FOUND"@,
        UserCustomResponseError::Conflict => "Conflict"@,
        UserCustomResponseError::ServerError => "Internal_Server_Error"@,
        UserCustomResponseError::NotAllowed => "Not_Allowed"@,
    }
}

impl UserCustomResponseError {
    /// The message of the error.
    pub fn message(&self) -> (res: &'static str)
        ensures
            res@ == user_error_message(*self),
    {
        match self {
            UserCustomResponseError::NotFound => "Could not find resource",
            UserCustomResponseError::ServerError => "Server Error",
            UserCustomResponseError::NotAllowed => "Not Allowed",
            UserCustomResponseError::Conflict => "Conflict",
        }
    }

    /// The `code` extension of the error.
    pub fn code(&self) -> (res: &'static str)
        ensures
            res@ == user_error_code(*self),
    {
        match self {
            UserCustomResponseError::NotFound => "NOT_FOUND",
            UserCustomResponseError::Conflict => "Conflict",
            UserCustomResponseError::ServerError => "Internal_Server_Error",
            UserCustomResponseError::NotAllowed => "Not_Allowed",
        }
    }
}

/// The message an error about categories is shown with.
pub open spec fn category_error_message(e: CategoryCustomResponseError) -> Seq<char> {
    match e {
        CategoryCustomResponseError::NotFound => not_found_message(),
        CategoryCustomResponseError::ServerError => server_error_message(),
        CategoryCustomResponseError::NotAllowed => not_allowed_message(),
    }
}

/// The `code` extension an error about categories carries.
pub open spec fn category_error_code(e: CategoryCustomResponseError) -> Seq<char> {
    match e {
        CategoryCustomResponseError::NotFound => "NOT_FOUND"@,
        CategoryCustomResponseError::ServerError => "Internal_Server_Error"@,
        CategoryCustomResponseError::NotAllowed => "Not_Allowed"@,
    }
}

impl CategoryCustomResponseError {
    /// The message of the error.
    pub fn message(&self) -> (res: &'static str)
        ensures
            res@ == category_error_message(*self),
    {
        match self {
            CategoryCustomResponseError::NotFound => "Could not find resource",
            CategoryCustomResponseError::ServerError => "Server Error",
            CategoryCustomResponseError::NotAllowed => "Not Allowed",
        }
    }

    /// The `code` extension of the error.
    pub fn code(&self) -> (res: &'static str)
        ensures
            res@ == category_error_code(*self),
    {
        match self {
            CategoryCustomResponseError::NotFound => "NOT_FOUND",
            CategoryCustomResponseError::ServerError => "Internal_Server_Error",
            CategoryCustomResponseError::NotAllowed => "Not_Allowed",
        }
    }
}

/// The message shown for the error kinds the other resource errors share.
pub open spec fn resource_error_message(not_found: bool, server: bool) -> Seq<char> {
    if not_found {
        not_found_message()
    } else if server {
        server_error_message()
    } else {
        not_allowed_message()
    }
}

impl FeatureCustomResponseError {
    /// The message of the error.
    pub fn message(&self) -> (res: &'static str)
        ensures
            res@ == resource_error_message(*self is NotFound, *self is ServerError),
    {
        match self {
            FeatureCustomResponseError::NotFound => "Could not find resource",
            FeatureCustomResponseError::ServerError => "Server Error",
            FeatureCustomResponseError::NotAllowed => "Not Allowed",
        }
    }
}

impl TemplateCustomResponseError {
    /// The message of the error.
    pub fn message(&self) -> (res: &'static str)
        ensures
            res@ == resource_error_message(*self is NotFound, *self is ServerError),
    {
        match self {
            TemplateCustomResponseError::NotFound => "Could not find resource",
            TemplateCustomResponseError::ServerError => "Server Error",
            TemplateCustomResponseError::NotAllowed => "Not Allowed",
        }
    }
}

impl ProtoTypeCustomResponseError {
    /// The message of the error.
    pub fn message(&self) -> (res: &'static str)
        ensures
            res@ == resource_error_message(*self is NotFound, *self is ServerError),
    {
        match self {
            ProtoTypeCustomResponseError::NotFound => "Could not find resource",
            ProtoTypeCustomResponseError::ServerError => "Server Error",
            ProtoTypeCustomResponseError::NotAllowed => "Not Allowed",
        }
    }
}

impl ProjectCustomResponseError {
    /// The message of the error.
    pub fn message(&self) -> (res: &'static str)
        ensures
            res@ == resource_error_message(*self is NotFound, *self is ServerError),
    {
        match self {
            ProjectCustomResponseError::NotFound => "Could not find resource",
            ProjectCustomResponseError::ServerError => "Server Error",
            ProjectCustomResponseError::NotAllowed => "Not Allowed",
        }
    }
}

} // verus!
