use vstd::prelude::*;

verus! {

/// The HTTP statuses with which the server refuses a request.
#[derive(Debug, Clone, Copy, PartialEq, Eq, Structural)]
pub enum HttpStatus {
    BadRequest,
    Forbidden,
    NotFound,
    InternalServerError,
}

/// The numeric status code of each refusal.
pub open spec fn status_code(s: HttpStatus) -> u16 {
    match s {
        HttpStatus::BadRequest => 400,
        HttpStatus::Forbidden => 403,
        HttpStatus::NotFound => 404,
        HttpStatus::InternalServerError => 500,
    }
}

impl HttpStatus {
    /// The numeric HTTP status code.
    pub fn code(&self) -> (c: u16)
        ensures
            c == status_code(*self),
    {
        match self {
            HttpStatus::BadRequest => 400,
            HttpStatus::Forbidden => 403,
            HttpStatus::NotFound => 404,
            HttpStatus::InternalServerError => 500,
        }
    }
}

} // verus!
