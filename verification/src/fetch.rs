//! Fetch-and-validate: normalize the URL, perform one blocking HTTP GET,
//! reject non-success statuses, and validate the body's magic signature.
//!
//! The network call itself is trusted; everything decided about its outcome
//! — which statuses pass, what the failure carries, whether the body is
//! accepted — is verified.

use crate::errors::HostError;
use crate::gif::{is_gif, validate_gif};
use crate::url::normalize_url;
use vstd::prelude::*;

verus! {

/// One HTTP reply, reduced to plain values: the numeric status, its display
/// form such as `404 Not Found`, and the body bytes.
pub struct HttpReply {
    pub status: u16,
    pub status_text: String,
    pub body: Vec<u8>,
}

/// The display form of an HTTP status code: the number, a space, and the
/// canonical reason phrase.  A fixed function of the code.
pub uninterp spec fn status_display_of(status: u16) -> Seq<char>;

/// Relies on `reqwest::blocking::get` and its `Response::status` and
/// `Response::bytes`: a status code always lies between 100 and 999, and its
/// display form is a fixed function of the code (the code, a space, and the
/// canonical reason phrase).  Nothing is promised about the body or about
/// which of `Ok` and `Err` comes back: the network decides.
#[verifier::external_body]
fn http_get(url: &str) -> (r: Result<HttpReply, String>)
    ensures
        r matches Ok(reply) ==> 100 <= reply.status <= 999 && reply.status_text@
            == status_display_of(reply.status),
{
    match reqwest::blocking::get(url) {
        Ok(resp) => {
            let status = resp.status();
            match resp.bytes() {
                Ok(b) => Ok(HttpReply {
                    status: status.as_u16(),
                    status_text: status.to_string(),
                    body: b.to_vec(),
                }),
                Err(e) => Err(e.to_string()),
            }
        },
        Err(e) => Err(e.to_string()),
    }
}

/// Accepts exactly the success statuses (2xx); any other status becomes the
/// HTTP failure carrying that status and its display text.
pub fn check_status(status: u16, status_text: String) -> (r: Result<(), HostError>)
    ensures
        (200 <= status < 300) <==> r is Ok,
        !(200 <= status < 300) ==> (r matches Err(e) && (e matches HostError::Http {
            status: s,
            status_text: t,
        } && s == status && t@ == status_text@)),
{
    if 200 <= status && status < 300 {
        Ok(())
    } else {
        Err(HostError::Http { status, status_text })
    }
}

/// Fetches the URL (after normalization) and returns the body bytes, which
/// are guaranteed to carry a GIF signature.  Fails with an I/O error when
/// the transport fails, an HTTP failure on a non-2xx status, and a
/// validation failure when the body is not a GIF.
pub fn fetch_validated(url: &String) -> (r: Result<Vec<u8>, HostError>)
    ensures
        match r {
            Ok(bytes) => is_gif(bytes@),
            Err(e) => match e {
                HostError::Io { .. } => true,
                HostError::Http { status, status_text } => !(200 <= status < 300)
                    && status_text@ == status_display_of(status),
                HostError::Validation => true,
                _ => false,
            },
        },
{
    let gif_url = normalize_url(url);
    let reply = match http_get(gif_url.as_str()) {
        Ok(reply) => reply,
        Err(message) => {
            return Err(HostError::Io { detail: message });
        },
    };
    let HttpReply { status, status_text, body } = reply;
    match check_status(status, status_text) {
        Ok(()) => {},
        Err(e) => {
            return Err(e);
        },
    }
    if !validate_gif(&body) {
        return Err(HostError::Validation);
    }
    Ok(body)
}

} // verus!
