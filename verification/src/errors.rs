//! The error taxonomy of the host.
//!
//! Every failure of any stage is eventually converted into a uniform failure
//! response whose `error` field carries the human-readable text returned by
//! [`HostError::error_text`].

use vstd::prelude::*;
use vstd::string::*;

verus! {

/// Everything that can go wrong while handling one request.
#[derive(Debug)]
pub enum HostError {
    /// A stream, file or transport failure; `detail` is the reporter's text.
    Io { detail: String },
    /// The inbound payload was not valid UTF-8.
    Encoding,
    /// The inbound payload was not JSON of the request shape.
    Parse,
    /// The HTTP fetch answered with a non-success status; `status_text` is
    /// the display form of the status, such as `404 Not Found`.
    Http { status: u16, status_text: String },
    /// The downloaded bytes do not begin with a GIF signature.
    Validation,
    /// A platform clipboard tool ran and failed; `message` carries the
    /// composed diagnostic including the tool's standard error.
    ExternalTool { message: String },
    /// No usable clipboard tool was found on this platform.
    ToolsUnavailable,
}

impl HostError {
    /// The human-readable text that a failure response carries for this
    /// error.
    pub open spec fn text_spec(&self) -> Seq<char> {
        match self {
            HostError::Io { detail } => detail@,
            HostError::Encoding => "message is not valid UTF-8"@,
            HostError::Parse => "malformed request JSON"@,
            HostError::Http { status, status_text } => "HTTP error: "@ + status_text@,
            HostError::Validation => "Downloaded file is not a valid GIF"@,
            HostError::ExternalTool { message } => message@,
            HostError::ToolsUnavailable => "Neither xclip nor wl-copy is available"@,
        }
    }

    /// Renders the error as the text placed in a failure response.
    pub fn error_text(&self) -> (r: String)
        ensures
            r@ == self.text_spec(),
    {
        match self {
            HostError::Io { detail } => detail.clone(),
            HostError::Encoding => String::from_str("message is not valid UTF-8"),
            HostError::Parse => String::from_str("malformed request JSON"),
            HostError::Http { status: _, status_text } => String::from_str(
                "HTTP error: ",
            ).concat(status_text.as_str()),
            HostError::Validation => String::from_str("Downloaded file is not a valid GIF"),
            HostError::ExternalTool { message } => message.clone(),
            HostError::ToolsUnavailable => String::from_str(
                "Neither xclip nor wl-copy is available",
            ),
        }
    }
}

} // verus!
