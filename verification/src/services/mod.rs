//! Services of the backend: authentication, answer shapes, and the errors
//! that API requests end in.
pub mod auth;
pub mod dto;
pub mod space;

use vstd::prelude::*;

verus! {

/// Errors that happend during API request proccessing
#[derive(Clone, Copy, Debug, PartialEq, Eq, Structural)]
pub enum APIError {
    /// The request to the specified resource failed
    RequestFailed,
    /// Server received invalid status code from client
    InvalidStatusCode(u16),
}

impl APIError {
    /// The status code that an error is answered with: `404 Not Found` for a
    /// failed request, else the code received.
    pub fn status_code(&self) -> (r: u16)
        ensures
            r == match *self {
                APIError::RequestFailed => 404u16,
                APIError::InvalidStatusCode(code) => code,
            },
    {
        match self {
            APIError::RequestFailed => 404,
            APIError::InvalidStatusCode(code) => *code,
        }
    }
}

} // verus!
