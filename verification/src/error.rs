//! Errors of the Obsidian client: a failed transport, a non-success reply
//! from the API, or a JSON failure.
use vstd::prelude::*;

use crate::json::json_error_text;
use crate::text::{decimal, push_decimal};

verus! {

/// Error returned by the Obsidian client.
#[derive(Debug)]
pub enum AppError {
    /// The HTTP exchange itself failed; holds the transport's message.
    Http(String),
    /// The API answered with a non-success status.
    Api { status: u16, body: String },
    /// JSON could not be handled.
    Json(serde_json::Error),
}

/// The mathematical value of an [`AppError`]; a JSON error is seen only by its kind.
pub enum AppErrorView {
    Http(Seq<char>),
    Api { status: u16, body: Seq<char> },
    Json,
}

impl View for AppError {
    type V = AppErrorView;

    open spec fn view(&self) -> AppErrorView {
        match self {
            AppError::Http(m) => AppErrorView::Http(m@),
            AppError::Api { status, body } => AppErrorView::Api { status: *status, body: body@ },
            AppError::Json(_) => AppErrorView::Json,
        }
    }
}

/// The message of an API error: `Obsidian API error ({status}): {body}`.
pub open spec fn api_error_message(status: u16, body: Seq<char>) -> Seq<char> {
    "Obsidian API error ("@ + decimal(status as nat) + "): "@ + body
}

/// The message of a transport error: `HTTP request failed: {message}`.
pub open spec fn http_error_message(message: Seq<char>) -> Seq<char> {
    "HTTP request failed: "@ + message
}

impl AppError {
    /// The error's message (what the original `Display` printed).
    pub fn to_string(&self) -> (s: String)
        ensures
            match self@ {
                AppErrorView::Http(m) => s@ == http_error_message(m),
                AppErrorView::Api { status, body } => s@ == api_error_message(status, body),
                AppErrorView::Json => "JSON error: "@.is_prefix_of(s@),
            },
    {
        match self {
            AppError::Http(m) => {
                let mut s = String::from_str("HTTP request failed: ");
                s.append(m.as_str());
                s
            },
            AppError::Api { status, body } => {
                let mut s = String::from_str("Obsidian API error (");
                push_decimal(&mut s, *status as u32);
                s.append("): ");
                s.append(body.as_str());
                s
            },
            AppError::Json(e) => {
                let mut s = String::from_str("JSON error: ");
                let detail = json_error_text(e);
                s.append(detail.as_str());
                s
            },
        }
    }
}

impl From<serde_json::Error> for AppError {
    fn from(e: serde_json::Error) -> (r: AppError) {
        AppError::Json(e)
    }
}

impl vstd::std_specs::convert::FromSpecImpl<serde_json::Error> for AppError {
    open spec fn obeys_from_spec() -> bool {
        true
    }

    open spec fn from_spec(e: serde_json::Error) -> AppError {
        AppError::Json(e)
    }
}

} // verus!
