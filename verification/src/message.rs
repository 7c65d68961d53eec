//! The two message shapes exchanged with the browser extension.
//!
//! A `Request` names an action and a URL; a `Response` reports success with
//! the method used, or failure with a diagnostic.  Both are pure data; the
//! JSON codec for them lives in the `json` module.

use vstd::prelude::*;
use vstd::string::*;

verus! {

/// The inbound message: an action name and the URL it applies to.
pub struct Request {
    pub action: String,
    pub url: String,
}

/// The outbound message.  On success `method` names the code path that
/// satisfied the request and `error` is absent; on failure `error` carries a
/// diagnostic and `method` is absent.
pub struct Response {
    pub success: bool,
    pub method: Option<String>,
    pub error: Option<String>,
}

impl Response {
    /// Exactly one of `method` and `error` may accompany the flag: a success
    /// carries no error, a failure carries an error and no method.
    pub open spec fn wf(&self) -> bool {
        if self.success {
            self.error is None
        } else {
            self.error is Some && self.method is None
        }
    }

    /// The response sent when the whole pipeline succeeded: the clipboard
    /// was filled by the native code path.
    pub fn ok_native() -> (r: Response)
        ensures
            r.success == true,
            r.method matches Some(m) && m@ == "native"@,
            r.error is None,
            r.wf(),
    {
        Response { success: true, method: Some(String::from_str("native")), error: None }
    }

    /// The response sent when any stage failed, carrying its diagnostic.
    pub fn failure(error: String) -> (r: Response)
        ensures
            r.success == false,
            r.method is None,
            r.error matches Some(e) && e@ == error@,
            r.wf(),
    {
        Response { success: false, method: None, error: Some(error) }
    }
}

} // verus!
