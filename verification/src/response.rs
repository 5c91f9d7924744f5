//! What the service answers.
//!
//! A page is a template filled with values; rendering it is left to the
//! caller. This module decides which page answers an upload and what becomes
//! of a template once it was rendered, or could not be.

use crate::pipeline::{Outcome, OutcomeText};
use vstd::prelude::*;
use vstd::string::StringExecFns;

verus! {

/// A template to be answered as an HTML page.
pub struct HtmlTemplate<T>(pub T);

/// The page that refuses access.
#[derive(Debug)]
pub struct Error403Template {
    pub app_name: String,
}

/// The page that reports failure, of whatever kind.
#[derive(Debug)]
pub struct Error404Template {
    pub app_name: String,
}

/// The page that shows the findings of an upload, as JSON text.
#[derive(Debug)]
pub struct UploadTemplate {
    pub app_name: String,
    pub script: String,
}

/// The pages the service answers with: one of its own kind for success, or
/// one of the two error pages.
pub enum HTTPResponse<T> {
    OK200(T),
    FORBIDDEN403(Error403Template),
    NOTFOUND404(Error404Template),
}

/// The failures of the service's programming interface.
#[derive(Clone, Copy, Debug, PartialEq, Eq, Structural)]
pub enum ApiError {
    InternalServerError,
}

/// A rendered answer: the HTTP status and the body.
#[derive(Debug)]
pub struct Page {
    pub status: u16,
    pub body: String,
}

/// The status of a page that was rendered.
pub const STATUS_OK: u16 = 200;

/// The status of a page that could not be rendered, and of [`ApiError`].
pub const STATUS_INTERNAL_SERVER_ERROR: u16 = 500;

impl ApiError {
    /// The HTTP status that reports the failure.
    pub fn status(&self) -> (r: u16)
        ensures
            r == STATUS_INTERNAL_SERVER_ERROR,
    {
        match self {
            ApiError::InternalServerError => STATUS_INTERNAL_SERVER_ERROR,
        }
    }

    /// The words that report the failure.
    pub fn message(&self) -> (r: &'static str)
        ensures
            r@ == "Internal Server Error"@,
    {
        match self {
            ApiError::InternalServerError => "Internal Server Error",
        }
    }
}

/// The answer that a rendering gives, before it is sent.
pub open spec fn page_text(rendered: Result<Seq<char>, Seq<char>>) -> (u16, Seq<char>) {
    match rendered {
        Ok(html) => (STATUS_OK, html),
        Err(reason) => (
            STATUS_INTERNAL_SERVER_ERROR,
            "Failed to render template. Error: "@ + reason,
        ),
    }
}

/// The view of a rendering.
pub open spec fn rendering_text(rendered: Result<String, String>) -> Result<Seq<char>, Seq<char>> {
    match rendered {
        Ok(html) => Ok(html@),
        Err(reason) => Err(reason@),
    }
}

impl<T> HtmlTemplate<T> {
    /// Turns what rendering the template gave into an answer: the page
    /// itself, or a server error that states the reason.
    pub fn page(rendered: Result<String, String>) -> (r: Page)
        ensures
            (r.status, r.body@) == page_text(rendering_text(rendered)),
    {
        match rendered {
            Ok(html) => Page { status: STATUS_OK, body: html },
            Err(reason) => {
                let mut body = String::from_str("Failed to render template. Error: ");
                body.append(reason.as_str());
                Page { status: STATUS_INTERNAL_SERVER_ERROR, body }
            },
        }
    }
}

/// What the page that answers an upload holds: the findings after success,
/// else nothing but the service's name.
pub open spec fn answers(
    response: HTTPResponse<UploadTemplate>,
    outcome: OutcomeText,
    app_name: Seq<char>,
) -> bool {
    match outcome {
        OutcomeText::Succeeded(json) => response matches HTTPResponse::OK200(page) && page.app_name@
            == app_name && page.script@ == json,
        _ => response matches HTTPResponse::NOTFOUND404(page) && page.app_name@ == app_name,
    }
}

/// Chooses the page that answers an upload.
///
/// Every outcome but success is answered alike, with the page that reports
/// failure: what went wrong is for the service's log, not for who uploaded.
pub fn respond(outcome: Outcome, app_name: String) -> (r: HTTPResponse<UploadTemplate>)
    ensures
        answers(r, outcome@, app_name@),
{
    match outcome {
        Outcome::Succeeded(json) => HTTPResponse::OK200(UploadTemplate { app_name, script: json }),
        _ => HTTPResponse::NOTFOUND404(Error404Template { app_name }),
    }
}

} // verus!
