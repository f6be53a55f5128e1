//! Errors raised by the gateway's own logic, with the HTTP status and
//! message each one is answered with.

use vstd::prelude::*;

use crate::text::push_str;

verus! {

/// Error raised by the gateway's logic. Failures of the database,
/// the Zenoh session or the filesystem are wrapped by the serving
/// layer, which answers them as internal errors.
#[derive(Debug)]
pub enum GatewayError {
    Config(String),
    NotFound,
    BadRequest(String),
    Unauthorized(String),
}

/// A `GatewayError` with its messages as character sequences.
pub enum GatewayErrorView {
    Config(Seq<char>),
    NotFound,
    BadRequest(Seq<char>),
    Unauthorized(Seq<char>),
}

impl View for GatewayError {
    type V = GatewayErrorView;

    open spec fn view(&self) -> GatewayErrorView {
        match self {
            GatewayError::Config(m) => GatewayErrorView::Config(m@),
            GatewayError::NotFound => GatewayErrorView::NotFound,
            GatewayError::BadRequest(m) => GatewayErrorView::BadRequest(m@),
            GatewayError::Unauthorized(m) => GatewayErrorView::Unauthorized(m@),
        }
    }
}

/// A result with a `GatewayError`, its value taken by `f` and its
/// error by its view.
pub open spec fn result_view<T, U>(r: Result<T, GatewayError>, f: spec_fn(T) -> U) -> Result<U, GatewayErrorView> {
    match r {
        Ok(v) => Ok(f(v)),
        Err(e) => Err(e@),
    }
}

impl GatewayError {
    /// The display text: a category prefix followed by the detail.
    pub open spec fn spec_message(&self) -> Seq<char> {
        match self {
            GatewayError::Config(m) => "config: "@ + m@,
            GatewayError::NotFound => "not found"@,
            GatewayError::BadRequest(m) => "bad request: "@ + m@,
            GatewayError::Unauthorized(m) => "unauthorized: "@ + m@,
        }
    }

    /// HTTP status answered for this error.
    pub open spec fn spec_status(&self) -> u16 {
        match self {
            GatewayError::Config(_) => 500,
            GatewayError::NotFound => 404,
            GatewayError::BadRequest(_) => 400,
            GatewayError::Unauthorized(_) => 401,
        }
    }

    /// The display text of the error.
    pub fn message(&self) -> (r: String)
        ensures
            r@ == self.spec_message(),
    {
        match self {
            GatewayError::Config(m) => {
                let mut s = "config: ".to_owned();
                push_str(&mut s, m.as_str());
                s
            },
            GatewayError::NotFound => "not found".to_owned(),
            GatewayError::BadRequest(m) => {
                let mut s = "bad request: ".to_owned();
                push_str(&mut s, m.as_str());
                s
            },
            GatewayError::Unauthorized(m) => {
                let mut s = "unauthorized: ".to_owned();
                push_str(&mut s, m.as_str());
                s
            },
        }
    }

    /// HTTP status code for the error: 404, 400, 401, or 500 for a
    /// configuration error.
    pub fn status_code(&self) -> (r: u16)
        ensures
            r == self.spec_status(),
    {
        match self {
            GatewayError::Config(_) => 500,
            GatewayError::NotFound => 404,
            GatewayError::BadRequest(_) => 400,
            GatewayError::Unauthorized(_) => 401,
        }
    }
}

} // verus!
