//! Message-level codec and the orchestrator's decisions.
//!
//! `read_message` and `write_message_bytes` implement the full wire contract:
//! frame, UTF-8, JSON.  `dispatch_request`, `handle_copy_gif` and
//! `read_failure_response` are the orchestrator's pure decisions: dispatch by
//! action and the uniform mapping of any stage failure into a failure
//! response.

use crate::errors::HostError;
use crate::frame::{decode_frame, encode_frame, frame_ok, frame_truncated, native_bytes_of};
use crate::json::{
    lemma_request_json_round_trip, spec_parse_request, spec_request_json, spec_response_json,
    view_opt, parse_request, request_json_chars, response_json_chars,
};
use crate::message::{Request, Response};
use crate::strings::{chars_to_string, string_from_utf8, string_to_chars};
use vstd::prelude::*;
use vstd::string::*;
use vstd::utf8::*;

verus! {

/// What a payload means: the request fields it parses to, or the stage at
/// which it is rejected.
pub open spec fn spec_payload_request(p: Seq<u8>) -> Result<(Seq<char>, Seq<char>), HostError> {
    if !valid_utf8(p) {
        Err(HostError::Encoding)
    } else {
        match spec_parse_request(decode_utf8(p)) {
            Some(fields) => Ok(fields),
            None => Err(HostError::Parse),
        }
    }
}

/// Decodes and parses one frame payload into a request.
pub fn payload_to_request(payload: Vec<u8>) -> (r: Result<Request, HostError>)
    ensures
        match r {
            Ok(req) => spec_payload_request(payload@) == Ok::<_, HostError>(
                (req.action@, req.url@),
            ),
            Err(e) => (e is Encoding || e is Parse) && spec_payload_request(payload@) == Err::<
                (Seq<char>, Seq<char>),
                _,
            >(e),
        },
{
    let text = match string_from_utf8(payload) {
        Some(t) => t,
        None => {
            return Err(HostError::Encoding);
        },
    };
    let chars = string_to_chars(text.as_str());
    match parse_request(&chars) {
        Some((action_chars, url_chars)) => Ok(
            Request {
                action: chars_to_string(&action_chars),
                url: chars_to_string(&url_chars),
            },
        ),
        None => Err(HostError::Parse),
    }
}

/// Reads one message from the bytes available on the input stream: frame,
/// UTF-8 decode, JSON parse.  Fails with an I/O error on a truncated frame,
/// an encoding error on bad UTF-8, a parse error on JSON of the wrong shape,
/// and succeeds otherwise.
pub fn read_message(input: &Vec<u8>) -> (r: Result<Request, HostError>)
    ensures
        match r {
            Ok(req) => exists|p: Seq<u8>|
                #[trigger] frame_ok(input@, p) && spec_payload_request(p) == Ok::<_, HostError>(
                    (req.action@, req.url@),
                ),
            Err(e) => match e {
                HostError::Io { .. } => frame_truncated(input@),
                HostError::Encoding => exists|p: Seq<u8>|
                    #[trigger] frame_ok(input@, p) && spec_payload_request(p) == Err::<
                        (Seq<char>, Seq<char>),
                        _,
                    >(HostError::Encoding),
                HostError::Parse => exists|p: Seq<u8>|
                    #[trigger] frame_ok(input@, p) && spec_payload_request(p) == Err::<
                        (Seq<char>, Seq<char>),
                        _,
                    >(HostError::Parse),
                _ => false,
            },
        },
{
    let payload = match decode_frame(input) {
        Ok(p) => p,
        Err(e) => {
            return Err(e);
        },
    };
    let ghost p_view = payload@;
    match payload_to_request(payload) {
        Ok(req) => {
            proof {
                assert(frame_ok(input@, p_view));
            }
            Ok(req)
        },
        Err(e) => {
            proof {
                assert(frame_ok(input@, p_view));
            }
            Err(e)
        },
    }
}

/// The frame bytes that carry a request: the canonical JSON in UTF-8 behind
/// a native-order length prefix.  `None` only when the payload cannot be
/// described by a 32-bit length.
pub fn write_request_bytes(req: &Request) -> (r: Option<Vec<u8>>)
    ensures
        ({
            let p = encode_utf8(spec_request_json(req.action@, req.url@));
            match r {
                Some(out) => p.len() <= u32::MAX && out@ == native_bytes_of(p.len() as u32) + p
                    && native_bytes_of(p.len() as u32).len() == 4,
                None => p.len() > u32::MAX,
            }
        }),
{
    let action_chars = string_to_chars(req.action.as_str());
    let url_chars = string_to_chars(req.url.as_str());
    let json = request_json_chars(&action_chars, &url_chars);
    let text = chars_to_string(&json);
    let payload = text.as_str().as_bytes_vec();
    encode_frame(&payload)
}

/// The frame bytes that carry a response.  `None` only when the payload
/// cannot be described by a 32-bit length.
pub fn write_message_bytes(resp: &Response) -> (r: Option<Vec<u8>>)
    ensures
        ({
            let p = encode_utf8(
                spec_response_json(resp.success, view_opt(resp.method), view_opt(resp.error)),
            );
            match r {
                Some(out) => p.len() <= u32::MAX && out@ == native_bytes_of(p.len() as u32) + p
                    && native_bytes_of(p.len() as u32).len() == 4,
                None => p.len() > u32::MAX,
            }
        }),
{
    let json = response_json_chars(resp);
    let text = chars_to_string(&json);
    let payload = text.as_str().as_bytes_vec();
    encode_frame(&payload)
}

/// What the orchestrator does with a freshly read request.
pub enum Dispatch {
    /// The action is recognized: run the copy pipeline on this URL.
    CopyGif { url: String },
    /// The action is not recognized: answer immediately with this failure.
    Respond { response: Response },
}

/// Dispatches on the request's action: `copyGif` runs the pipeline, any
/// other action is answered immediately with `Unknown action: <action>`.
pub fn dispatch_request(req: &Request) -> (r: Dispatch)
    ensures
        req.action@ == "copyGif"@ ==> (r matches Dispatch::CopyGif { url } && url@ == req.url@),
        req.action@ != "copyGif"@ ==> (r matches Dispatch::Respond { response }
            && response.success == false && response.method is None
            && (response.error matches Some(e) && e@ == "Unknown action: "@ + req.action@)),
{
    let action_chars = string_to_chars(req.action.as_str());
    let is_copy_gif = action_chars.len() == 7 && action_chars[0] == 'c' && action_chars[1] == 'o'
        && action_chars[2] == 'p' && action_chars[3] == 'y' && action_chars[4] == 'G'
        && action_chars[5] == 'i' && action_chars[6] == 'f';
    proof {
        reveal_strlit("copyGif");
        if is_copy_gif {
            assert(req.action@ =~= "copyGif"@);
        }
    }
    if is_copy_gif {
        Dispatch::CopyGif { url: req.url.clone() }
    } else {
        let text = String::from_str("Unknown action: ").concat(req.action.as_str());
        Dispatch::Respond { response: Response::failure(text) }
    }
}

/// Converts the outcome of the copy pipeline into the response the peer
/// receives: success reports the native method, failure carries the error's
/// text.
pub fn handle_copy_gif(outcome: Result<(), HostError>) -> (r: Response)
    ensures
        r.wf(),
        outcome is Ok ==> (r.success == true && (r.method matches Some(m) && m@ == "native"@)),
        outcome matches Err(e) ==> (r.success == false && r.method is None
            && (r.error matches Some(t) && t@ == e.text_spec())),
{
    match outcome {
        Ok(()) => Response::ok_native(),
        Err(e) => Response::failure(e.error_text()),
    }
}

/// What the pipeline does once the fetch-and-validate outcome is known.
pub enum Step {
    /// The body was fetched and validated: stage it in a temporary file.
    Stage { bytes: Vec<u8> },
    /// Some stage failed: skip staging and the clipboard entirely and answer
    /// at once.
    Respond { response: Response },
}

/// The pipeline decision after fetch-and-validate: only a validated body is
/// ever staged; on any failure neither staging nor any clipboard step
/// happens, and the uniform failure response is the next step.
pub fn after_fetch(outcome: Result<Vec<u8>, HostError>) -> (r: Step)
    ensures
        outcome matches Ok(bytes) ==> (r matches Step::Stage { bytes: b } && b@ == bytes@),
        outcome matches Err(e) ==> (r matches Step::Respond { response } && response.wf()
            && response.success == false && (response.error matches Some(t) && t@
            == e.text_spec())),
{
    match outcome {
        Ok(bytes) => Step::Stage { bytes },
        Err(e) => Step::Respond { response: handle_copy_gif(Err(e)) },
    }
}

/// Law: framing round-trip.  Writing any request as a frame and reading the
/// bytes back reconstructs an equivalent request.  Returns `None` only when
/// the encoded payload overflows a 32-bit length, in which case nothing was
/// framed at all.
pub fn request_round_trip(req: &Request) -> (r: Option<Request>)
    ensures
        match r {
            Some(back) => back.action@ == req.action@ && back.url@ == req.url@,
            None => encode_utf8(spec_request_json(req.action@, req.url@)).len() > u32::MAX,
        },
{
    let bytes = match write_request_bytes(req) {
        Some(b) => b,
        None => {
            return None;
        },
    };
    let ghost jc = spec_request_json(req.action@, req.url@);
    let ghost p = encode_utf8(jc);
    proof {
        encode_utf8_valid_utf8(jc);
        encode_utf8_decode_utf8(jc);
        lemma_request_json_round_trip(req.action@, req.url@);
        assert(bytes@.subrange(0, 4) =~= native_bytes_of(p.len() as u32));
        assert(bytes@.subrange(4, 4 + p.len() as int) =~= p);
        assert(spec_payload_request(p) == Ok::<_, HostError>((req.action@, req.url@)));
    }
    match read_message(&bytes) {
        Ok(back) => {
            proof {
                let p2 = choose|p2: Seq<u8>|
                    #[trigger] frame_ok(bytes@, p2) && spec_payload_request(p2) == Ok::<
                        _,
                        HostError,
                    >((back.action@, back.url@));
                assert(p2.len() == p.len());
                assert(p2 =~= p);
            }
            Some(back)
        },
        Err(e) => {
            proof {
                match e {
                    HostError::Io { .. } => {
                        assert(bytes@.len() == 4 + p.len());
                        assert(false);
                    },
                    HostError::Encoding => {
                        let p2 = choose|p2: Seq<u8>|
                            #[trigger] frame_ok(bytes@, p2) && spec_payload_request(p2) == Err::<
                                (Seq<char>, Seq<char>),
                                _,
                            >(HostError::Encoding);
                        assert(p2.len() == p.len());
                        assert(p2 =~= p);
                        assert(false);
                    },
                    HostError::Parse => {
                        let p2 = choose|p2: Seq<u8>|
                            #[trigger] frame_ok(bytes@, p2) && spec_payload_request(p2) == Err::<
                                (Seq<char>, Seq<char>),
                                _,
                            >(HostError::Parse);
                        assert(p2.len() == p.len());
                        assert(p2 =~= p);
                        assert(false);
                    },
                    _ => {
                        assert(false);
                    },
                }
            }
            None
        },
    }
}

/// The response synthesized when the inbound message could not be read at
/// all: `Failed to read message: <why>`.
pub fn read_failure_response(e: &HostError) -> (r: Response)
    ensures
        r.wf(),
        r.success == false && r.method is None && (r.error matches Some(t) && t@
            == "Failed to read message: "@ + e.text_spec()),
{
    let text = String::from_str("Failed to read message: ").concat(e.error_text().as_str());
    Response::failure(text)
}

} // verus!
