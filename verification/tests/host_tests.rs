use copy_gif_host::clipboard::{
    copy_to_clipboard_linux, copy_to_clipboard_linux_fallback, copy_to_clipboard_linux_primary,
    copy_to_clipboard_macos, copy_to_clipboard_macos_command, copy_to_clipboard_windows,
    copy_to_clipboard_windows_command, linux_fallback_command, linux_primary_command, LinuxStep,
    ToolOutcome,
};
use copy_gif_host::errors::HostError;
use copy_gif_host::host::{
    after_fetch, dispatch_request, handle_copy_gif, read_failure_response, read_message,
    request_round_trip, write_message_bytes, write_request_bytes, Dispatch, Step,
};
use copy_gif_host::message::{Request, Response};

fn frame(payload: &[u8]) -> Vec<u8> {
    let mut out = (payload.len() as u32).to_ne_bytes().to_vec();
    out.extend_from_slice(payload);
    out
}

fn payload_of(frame_bytes: &[u8]) -> &[u8] {
    let mut len_bytes = [0u8; 4];
    len_bytes.copy_from_slice(&frame_bytes[0..4]);
    let len = u32::from_ne_bytes(len_bytes) as usize;
    assert_eq!(frame_bytes.len(), 4 + len);
    &frame_bytes[4..]
}

fn request(action: &str, url: &str) -> Request {
    Request { action: action.to_string(), url: url.to_string() }
}

#[test]
fn round_trip_simple_request() {
    let req = request("copyGif", "http://example.com/a.gif");
    let back = request_round_trip(&req).unwrap();
    assert_eq!(back.action, "copyGif");
    assert_eq!(back.url, "http://example.com/a.gif");
}

#[test]
fn round_trip_awkward_characters() {
    let url = "http://example.com/?q=\"a\\b\"\n\t\u{1}\u{7f}\u{e9}\u{1F600}";
    let req = request("copyGif", url);
    let bytes = write_request_bytes(&req).unwrap();
    let back = read_message(&bytes).unwrap();
    assert_eq!(back.action, "copyGif");
    assert_eq!(back.url, url);
}

#[test]
fn round_trip_through_written_bytes() {
    let req = request("copyGif", "http://x");
    let bytes = write_request_bytes(&req).unwrap();
    let back = read_message(&bytes).unwrap();
    assert_eq!(back.action, req.action);
    assert_eq!(back.url, req.url);
}

#[test]
fn written_request_payload_is_canonical_json() {
    let req = request("copyGif", "http://x/a.gif");
    let bytes = write_request_bytes(&req).unwrap();
    let payload = payload_of(&bytes);
    assert_eq!(
        std::str::from_utf8(payload).unwrap(),
        "{\"action\":\"copyGif\",\"url\":\"http://x/a.gif\"}"
    );
}

#[test]
fn empty_input_is_io_error() {
    let r = read_message(&Vec::new());
    assert!(matches!(r, Err(HostError::Io { .. })));
}

#[test]
fn short_prefix_is_io_error() {
    let r = read_message(&vec![7u8, 0]);
    assert!(matches!(r, Err(HostError::Io { .. })));
}

#[test]
fn truncated_payload_is_io_error() {
    let mut bytes = 10u32.to_ne_bytes().to_vec();
    bytes.extend_from_slice(b"abc");
    let r = read_message(&bytes);
    assert!(matches!(r, Err(HostError::Io { .. })));
}

#[test]
fn invalid_utf8_is_encoding_error() {
    let bytes = frame(&[0xff, 0xfe, b'{', b'}']);
    let r = read_message(&bytes);
    assert!(matches!(r, Err(HostError::Encoding)));
}

#[test]
fn malformed_json_is_parse_error() {
    for payload in [
        &b"{}"[..],
        b"[1,2]",
        b"{\"action\":\"a\"}",
        b"{\"action\":\"a\",\"url\":3}",
        b"{\"action\":\"a\",\"action\":\"b\"}",
        b"{\"action\":\"a\",\"url\":\"u\"} trailing",
        b"{\"action\":\"a\",\"url\":\"u\"",
        b"{\"action\":\"a\",\"url\":\"\\q\"}",
        b"{\"action\":\"a\",\"url\":\"\\u00e9\"}",
    ] {
        let r = read_message(&frame(payload));
        assert!(matches!(r, Err(HostError::Parse)), "payload: {:?}", payload);
    }
}

#[test]
fn whitespace_and_member_order_are_tolerated() {
    let payload = b" { \"url\" : \"http://x\" , \"action\" : \"copyGif\" } ";
    let req = read_message(&frame(payload)).unwrap();
    assert_eq!(req.action, "copyGif");
    assert_eq!(req.url, "http://x");
}

#[test]
fn unicode_escapes_below_eighty_are_understood() {
    let payload = b"{\"action\":\"\\u0063opyGif\",\"url\":\"a\\u0041\\n\\t\\\"\\\\\\/b\"}";
    let req = read_message(&frame(payload)).unwrap();
    assert_eq!(req.action, "copyGif");
    assert_eq!(req.url, "aA\n\t\"\\/b");
}

#[test]
fn unknown_action_response_is_exact() {
    let req = request("foo", "http://x");
    match dispatch_request(&req) {
        Dispatch::Respond { response } => {
            assert!(!response.success);
            assert_eq!(response.method, None);
            assert_eq!(response.error.as_deref(), Some("Unknown action: foo"));
        }
        Dispatch::CopyGif { .. } => panic!("foo must not dispatch"),
    }
}

#[test]
fn copy_gif_action_dispatches() {
    let req = request("copyGif", "http://x");
    match dispatch_request(&req) {
        Dispatch::CopyGif { url } => assert_eq!(url, "http://x"),
        Dispatch::Respond { .. } => panic!("copyGif must dispatch"),
    }
}

#[test]
fn unknown_action_wire_bytes_are_exact() {
    let req = request("foo", "http://x");
    let resp = match dispatch_request(&req) {
        Dispatch::Respond { response } => response,
        Dispatch::CopyGif { .. } => panic!("foo must not dispatch"),
    };
    let bytes = write_message_bytes(&resp).unwrap();
    let payload = payload_of(&bytes);
    assert_eq!(
        std::str::from_utf8(payload).unwrap(),
        "{\"success\":false,\"error\":\"Unknown action: foo\"}"
    );
}

#[test]
fn success_wire_bytes_are_exact() {
    let resp = handle_copy_gif(Ok(()));
    let bytes = write_message_bytes(&resp).unwrap();
    let payload = payload_of(&bytes);
    assert_eq!(
        std::str::from_utf8(payload).unwrap(),
        "{\"success\":true,\"method\":\"native\"}"
    );
}

#[test]
fn written_json_agrees_with_serde_json() {
    let resp = Response {
        success: false,
        method: None,
        error: Some("tool said \"no\"\n".to_string()),
    };
    let bytes = write_message_bytes(&resp).unwrap();
    let value: serde_json::Value = serde_json::from_slice(payload_of(&bytes)).unwrap();
    assert_eq!(value["success"], serde_json::Value::Bool(false));
    assert_eq!(value["error"].as_str(), Some("tool said \"no\"\n"));
    assert!(value.get("method").is_none());

    let req = request("copyGif", "http://x/?a=\u{1}\u{e9}");
    let req_bytes = write_request_bytes(&req).unwrap();
    let value: serde_json::Value = serde_json::from_slice(payload_of(&req_bytes)).unwrap();
    assert_eq!(value["action"].as_str(), Some("copyGif"));
    assert_eq!(value["url"].as_str(), Some("http://x/?a=\u{1}\u{e9}"));
}

#[test]
fn normalize_rewrites_webp_suffix() {
    let url = "http://example.com/a.webp".to_string();
    assert_eq!(copy_gif_host::url::normalize_url(&url), "http://example.com/a.gif");
}

#[test]
fn normalize_leaves_other_urls_alone() {
    for url in ["http://example.com/a.gif", "http://example.com/a.webp.png", "", "a"] {
        let u = url.to_string();
        assert_eq!(copy_gif_host::url::normalize_url(&u), url);
    }
}

#[test]
fn normalize_replaces_every_occurrence_blindly() {
    let url = "http://x/.webp/a.webpb.webp".to_string();
    assert_eq!(copy_gif_host::url::normalize_url(&url), "http://x/.gif/a.gifb.gif");
}

#[test]
fn gif_signatures_pass_validation() {
    assert!(copy_gif_host::validate_gif(&b"GIF87a rest".to_vec()));
    assert!(copy_gif_host::validate_gif(&b"GIF89a".to_vec()));
}

#[test]
fn other_prefixes_fail_validation() {
    assert!(!copy_gif_host::validate_gif(&b"\x89PNG\r\n\x1a\n".to_vec()));
    assert!(!copy_gif_host::validate_gif(&b"GIF88a".to_vec()));
    assert!(!copy_gif_host::validate_gif(&b"GIF87".to_vec()));
    assert!(!copy_gif_host::validate_gif(&Vec::new()));
}

#[test]
fn validation_failure_skips_staging() {
    match after_fetch(Err(HostError::Validation)) {
        Step::Respond { response } => {
            assert!(!response.success);
            assert_eq!(response.error.as_deref(), Some("Downloaded file is not a valid GIF"));
        }
        Step::Stage { .. } => panic!("a failed fetch must not stage"),
    }
}

#[test]
fn validated_body_is_staged() {
    match after_fetch(Ok(b"GIF89a!".to_vec())) {
        Step::Stage { bytes } => assert_eq!(bytes, b"GIF89a!"),
        Step::Respond { .. } => panic!("a validated body must be staged"),
    }
}

#[test]
fn http_failure_response_is_exact() {
    let r = copy_gif_host::fetch::check_status(404, "404 Not Found".to_string());
    let e = r.unwrap_err();
    let resp = handle_copy_gif(Err(e));
    assert!(!resp.success);
    assert_eq!(resp.method, None);
    assert_eq!(resp.error.as_deref(), Some("HTTP error: 404 Not Found"));
}

#[test]
fn success_statuses_pass_the_check() {
    assert!(copy_gif_host::fetch::check_status(200, "200 OK".to_string()).is_ok());
    assert!(copy_gif_host::fetch::check_status(299, "299 <unknown status code>".to_string()).is_ok());
    assert!(copy_gif_host::fetch::check_status(199, "199 x".to_string()).is_err());
    assert!(copy_gif_host::fetch::check_status(300, "300 Multiple Choices".to_string()).is_err());
    assert!(copy_gif_host::fetch::check_status(500, "500 Internal Server Error".to_string()).is_err());
}

#[test]
fn linux_fallback_runs_after_primary_failure() {
    let path = "/tmp/staged.gif".to_string();
    let primary = linux_primary_command(&path);
    assert_eq!(primary.program, "xclip");
    assert_eq!(
        primary.args,
        vec!["-selection", "clipboard", "-t", "image/gif", "-i", "/tmp/staged.gif"]
    );
    assert_eq!(primary.feed_file, None);

    let absent = ToolOutcome::NotRun { message: "No such file or directory".to_string() };
    assert!(matches!(copy_to_clipboard_linux_primary(&absent), LinuxStep::TryFallback));
    let failed = ToolOutcome::Completed { exit_success: false, stderr: "x".to_string() };
    assert!(matches!(copy_to_clipboard_linux_primary(&failed), LinuxStep::TryFallback));
    let ok = ToolOutcome::Completed { exit_success: true, stderr: String::new() };
    assert!(matches!(copy_to_clipboard_linux_primary(&ok), LinuxStep::Done));

    let fallback = linux_fallback_command(&path);
    assert_eq!(fallback.program, "wl-copy");
    assert_eq!(fallback.args, vec!["--type", "image/gif"]);
    assert_eq!(fallback.feed_file.as_deref(), Some("/tmp/staged.gif"));
}

#[test]
fn both_tools_unavailable_response_is_exact() {
    let absent = ToolOutcome::NotRun { message: "No such file or directory".to_string() };
    let e = copy_to_clipboard_linux_fallback(&absent).unwrap_err();
    let resp = handle_copy_gif(Err(e));
    assert!(!resp.success);
    assert_eq!(resp.error.as_deref(), Some("Neither xclip nor wl-copy is available"));
}

#[test]
fn linux_copy_consults_the_fallback_only_after_primary_failure() {
    let ok = ToolOutcome::Completed { exit_success: true, stderr: String::new() };
    let absent = ToolOutcome::NotRun { message: "No such file or directory".to_string() };
    let failed = ToolOutcome::Completed { exit_success: false, stderr: "x".to_string() };
    assert!(copy_to_clipboard_linux(&ok, &absent).is_ok());
    assert!(copy_to_clipboard_linux(&absent, &ok).is_ok());
    assert!(copy_to_clipboard_linux(&failed, &ok).is_ok());
    let e = copy_to_clipboard_linux(&absent, &failed).unwrap_err();
    assert_eq!(e.error_text(), "Neither xclip nor wl-copy is available");
}

#[test]
fn fallback_success_completes_the_copy() {
    let ok = ToolOutcome::Completed { exit_success: true, stderr: String::new() };
    assert!(copy_to_clipboard_linux_fallback(&ok).is_ok());
}

#[test]
fn macos_command_and_outcomes() {
    let path = "/tmp/staged.gif".to_string();
    let cmd = copy_to_clipboard_macos_command(&path);
    assert_eq!(cmd.program, "osascript");
    assert_eq!(cmd.args.len(), 2);
    assert_eq!(cmd.args[0], "-e");
    assert_eq!(
        cmd.args[1],
        "set the clipboard to (read (POSIX file \"/tmp/staged.gif\") as \u{ab}class GIFf\u{bb})"
    );

    let ok = ToolOutcome::Completed { exit_success: true, stderr: String::new() };
    assert!(copy_to_clipboard_macos(&ok).is_ok());
    let failed = ToolOutcome::Completed { exit_success: false, stderr: "boom".to_string() };
    match copy_to_clipboard_macos(&failed).unwrap_err() {
        HostError::ExternalTool { message } => assert_eq!(message, "osascript failed: boom"),
        other => panic!("wrong error: {}", other.error_text()),
    }
}

#[test]
fn windows_command_and_outcomes() {
    let path = "C:\\tmp\\staged.gif".to_string();
    let cmd = copy_to_clipboard_windows_command(&path);
    assert_eq!(cmd.program, "powershell");
    assert_eq!(cmd.args[0], "-Command");
    assert!(cmd.args[1].contains("Get-Item -LiteralPath \"C:\\tmp\\staged.gif\""));
    assert!(cmd.args[1].contains("[System.Windows.Forms.Clipboard]::SetDataObject($dataObject, $true)"));

    let failed = ToolOutcome::Completed { exit_success: false, stderr: "denied".to_string() };
    match copy_to_clipboard_windows(&failed).unwrap_err() {
        HostError::ExternalTool { message } => assert_eq!(message, "PowerShell failed: denied"),
        other => panic!("wrong error: {}", other.error_text()),
    }
}

#[test]
fn read_failure_response_wraps_the_cause() {
    let e = HostError::Io { detail: "unexpected end of input stream".to_string() };
    let resp = read_failure_response(&e);
    assert!(!resp.success);
    assert_eq!(
        resp.error.as_deref(),
        Some("Failed to read message: unexpected end of input stream")
    );
}

#[test]
fn error_texts_are_exact() {
    assert_eq!(HostError::Encoding.error_text(), "message is not valid UTF-8");
    assert_eq!(HostError::Parse.error_text(), "malformed request JSON");
    assert_eq!(HostError::Validation.error_text(), "Downloaded file is not a valid GIF");
    assert_eq!(
        HostError::ToolsUnavailable.error_text(),
        "Neither xclip nor wl-copy is available"
    );
    assert_eq!(
        HostError::Http { status: 404, status_text: "404 Not Found".to_string() }.error_text(),
        "HTTP error: 404 Not Found"
    );
    assert_eq!(HostError::Io { detail: "d".to_string() }.error_text(), "d");
    assert_eq!(HostError::ExternalTool { message: "m".to_string() }.error_text(), "m");
}

#[test]
fn success_response_shape_is_wellformed() {
    let resp = handle_copy_gif(Ok(()));
    assert!(resp.success);
    assert_eq!(resp.method.as_deref(), Some("native"));
    assert_eq!(resp.error, None);
}
