//! The clipboard dispatcher's verified half: which external tool to invoke
//! with which arguments, and what each tool's outcome means.
//!
//! Exactly one platform variant is selected per run.  The macOS and Windows
//! variants invoke one scripting tool each; the Linux variant probes two
//! tools in a fixed priority order — `xclip` first, `wl-copy` as the
//! fallback — and gives up only when both are unusable.  Running a process
//! is I/O and happens outside this crate; the command built for it and the
//! meaning of its outcome are decided and verified here.

use crate::errors::HostError;
use vstd::prelude::*;
use vstd::string::*;

verus! {

/// The target platform, chosen once at startup.
pub enum Platform {
    MacOs,
    Windows,
    Linux,
}

/// One external command to run: a program, its arguments, and optionally a
/// file whose bytes are streamed into the program's standard input.
pub struct ToolCommand {
    pub program: String,
    pub args: Vec<String>,
    pub feed_file: Option<String>,
}

/// How running one external tool went.
pub enum ToolOutcome {
    /// The tool ran to completion with this exit status and standard error.
    Completed { exit_success: bool, stderr: String },
    /// The tool could not be spawned or waited for, typically because it is
    /// absent; `message` is the spawn error's text.
    NotRun { message: String },
}

impl ToolOutcome {
    /// The tool ran and exited successfully.
    pub open spec fn succeeded(&self) -> bool {
        self matches ToolOutcome::Completed { exit_success: true, .. }
    }
}

/// The AppleScript handed to `osascript`: read the staged file as a GIF
/// class and set the clipboard to it.
pub open spec fn spec_macos_script(path: Seq<char>) -> Seq<char> {
    "set the clipboard to (read (POSIX file \""@ + path + "\") as «class GIFf»)"@
}

/// The PowerShell script handed to `powershell`: place the staged file on
/// the clipboard as a file-drop list through the Windows Forms API.
pub open spec fn spec_windows_script(path: Seq<char>) -> Seq<char> {
    "\n        Add-Type -AssemblyName System.Windows.Forms\n        $file = Get-Item -LiteralPath \""@
        + path
        + "\"\n        $dataObject = New-Object System.Windows.Forms.DataObject\n        $dataObject.SetFileDropList([System.Collections.Specialized.StringCollection]::new())\n        $dataObject.GetFileDropList().Add($file.FullName)\n        [System.Windows.Forms.Clipboard]::SetDataObject($dataObject, $true)\n        "@
}

/// The command the macOS variant runs: `osascript -e <script>`.
pub fn copy_to_clipboard_macos_command(path: &String) -> (r: ToolCommand)
    ensures
        r.program@ == "osascript"@,
        r.args@.len() == 2,
        r.args@[0]@ == "-e"@,
        r.args@[1]@ == spec_macos_script(path@),
        r.feed_file is None,
{
    let script = String::from_str("set the clipboard to (read (POSIX file \"").concat(
        path.as_str(),
    ).concat("\") as «class GIFf»)");
    let mut args: Vec<String> = Vec::new();
    args.push(String::from_str("-e"));
    args.push(script);
    ToolCommand { program: String::from_str("osascript"), args, feed_file: None }
}

/// The meaning of the macOS tool's outcome: success on a zero exit status, a
/// composed `osascript failed: <stderr>` diagnostic on a non-zero one, and
/// the spawn error's text when the tool could not run at all.
pub fn copy_to_clipboard_macos(outcome: &ToolOutcome) -> (r: Result<(), HostError>)
    ensures
        outcome.succeeded() <==> r is Ok,
        match outcome {
            ToolOutcome::Completed { exit_success: false, stderr } => r matches Err(e) && (
            e matches HostError::ExternalTool { message } && message@ == "osascript failed: "@
                + stderr@),
            ToolOutcome::NotRun { message } => r matches Err(e) && (e matches HostError::Io {
                detail,
            } && detail@ == message@),
            _ => true,
        },
{
    match outcome {
        ToolOutcome::Completed { exit_success: true, stderr: _ } => Ok(()),
        ToolOutcome::Completed { exit_success: false, stderr } => Err(
            HostError::ExternalTool {
                message: String::from_str("osascript failed: ").concat(stderr.as_str()),
            },
        ),
        ToolOutcome::NotRun { message } => Err(HostError::Io { detail: message.clone() }),
    }
}

/// The command the Windows variant runs: `powershell -Command <script>`.
pub fn copy_to_clipboard_windows_command(path: &String) -> (r: ToolCommand)
    ensures
        r.program@ == "powershell"@,
        r.args@.len() == 2,
        r.args@[0]@ == "-Command"@,
        r.args@[1]@ == spec_windows_script(path@),
        r.feed_file is None,
{
    let script = String::from_str(
        "\n        Add-Type -AssemblyName System.Windows.Forms\n        $file = Get-Item -LiteralPath \"",
    ).concat(path.as_str()).concat(
        "\"\n        $dataObject = New-Object System.Windows.Forms.DataObject\n        $dataObject.SetFileDropList([System.Collections.Specialized.StringCollection]::new())\n        $dataObject.GetFileDropList().Add($file.FullName)\n        [System.Windows.Forms.Clipboard]::SetDataObject($dataObject, $true)\n        ",
    );
    let mut args: Vec<String> = Vec::new();
    args.push(String::from_str("-Command"));
    args.push(script);
    ToolCommand { program: String::from_str("powershell"), args, feed_file: None }
}

/// The meaning of the Windows tool's outcome, as on macOS but with the
/// `PowerShell failed: <stderr>` diagnostic.
pub fn copy_to_clipboard_windows(outcome: &ToolOutcome) -> (r: Result<(), HostError>)
    ensures
        outcome.succeeded() <==> r is Ok,
        match outcome {
            ToolOutcome::Completed { exit_success: false, stderr } => r matches Err(e) && (
            e matches HostError::ExternalTool { message } && message@ == "PowerShell failed: "@
                + stderr@),
            ToolOutcome::NotRun { message } => r matches Err(e) && (e matches HostError::Io {
                detail,
            } && detail@ == message@),
            _ => true,
        },
{
    match outcome {
        ToolOutcome::Completed { exit_success: true, stderr: _ } => Ok(()),
        ToolOutcome::Completed { exit_success: false, stderr } => Err(
            HostError::ExternalTool {
                message: String::from_str("PowerShell failed: ").concat(stderr.as_str()),
            },
        ),
        ToolOutcome::NotRun { message } => Err(HostError::Io { detail: message.clone() }),
    }
}

/// The command the Linux variant tries first: `xclip` with the clipboard
/// selection, the GIF MIME type, and the staged file as input.
pub fn linux_primary_command(path: &String) -> (r: ToolCommand)
    ensures
        r.program@ == "xclip"@,
        r.args@.len() == 6,
        r.args@[0]@ == "-selection"@,
        r.args@[1]@ == "clipboard"@,
        r.args@[2]@ == "-t"@,
        r.args@[3]@ == "image/gif"@,
        r.args@[4]@ == "-i"@,
        r.args@[5]@ == path@,
        r.feed_file is None,
{
    let mut args: Vec<String> = Vec::new();
    args.push(String::from_str("-selection"));
    args.push(String::from_str("clipboard"));
    args.push(String::from_str("-t"));
    args.push(String::from_str("image/gif"));
    args.push(String::from_str("-i"));
    args.push(path.clone());
    ToolCommand { program: String::from_str("xclip"), args, feed_file: None }
}

/// The fallback command on Linux: `wl-copy` with the GIF MIME type, fed the
/// staged file's bytes on its standard input.
pub fn linux_fallback_command(path: &String) -> (r: ToolCommand)
    ensures
        r.program@ == "wl-copy"@,
        r.args@.len() == 2,
        r.args@[0]@ == "--type"@,
        r.args@[1]@ == "image/gif"@,
        r.feed_file matches Some(p) && p@ == path@,
{
    let mut args: Vec<String> = Vec::new();
    args.push(String::from_str("--type"));
    args.push(String::from_str("image/gif"));
    ToolCommand { program: String::from_str("wl-copy"), args, feed_file: Some(path.clone()) }
}

/// What to do after the primary Linux tool's outcome is known.
pub enum LinuxStep {
    /// The primary tool filled the clipboard: the copy is done.
    Done,
    /// The primary tool was absent or failed: invoke the fallback tool on
    /// the same staged file.
    TryFallback,
}

/// The Linux probe order's first decision: the copy is done exactly when the
/// primary tool ran and succeeded; on every other outcome the fallback tool
/// is tried next.
pub fn copy_to_clipboard_linux_primary(outcome: &ToolOutcome) -> (r: LinuxStep)
    ensures
        outcome.succeeded() <==> r is Done,
        !outcome.succeeded() <==> r is TryFallback,
{
    match outcome {
        ToolOutcome::Completed { exit_success: true, stderr: _ } => LinuxStep::Done,
        _ => LinuxStep::TryFallback,
    }
}

/// The Linux probe order's last decision: the copy is done exactly when the
/// fallback tool ran and succeeded; on every other outcome both tools have
/// been exhausted and the copy fails with the tools-unavailable error.
pub fn copy_to_clipboard_linux_fallback(outcome: &ToolOutcome) -> (r: Result<(), HostError>)
    ensures
        outcome.succeeded() <==> r is Ok,
        !outcome.succeeded() ==> (r matches Err(e) && e is ToolsUnavailable),
{
    match outcome {
        ToolOutcome::Completed { exit_success: true, stderr: _ } => Ok(()),
        _ => Err(HostError::ToolsUnavailable),
    }
}

/// Law: the Linux fallback ordering.  Given how each probe went, the copy
/// succeeds when the primary tool succeeded; the fallback tool's outcome is
/// consulted only when the primary tool was absent or failed; and only when
/// both are unusable does the copy fail, with exactly the
/// tools-unavailable diagnostic.
pub fn copy_to_clipboard_linux(primary: &ToolOutcome, fallback: &ToolOutcome) -> (r: Result<
    (),
    HostError,
>)
    ensures
        primary.succeeded() ==> r is Ok,
        !primary.succeeded() && fallback.succeeded() ==> r is Ok,
        !primary.succeeded() && !fallback.succeeded() ==> (r matches Err(e)
            && e is ToolsUnavailable && e.text_spec()
            == "Neither xclip nor wl-copy is available"@),
{
    match copy_to_clipboard_linux_primary(primary) {
        LinuxStep::Done => Ok(()),
        LinuxStep::TryFallback => copy_to_clipboard_linux_fallback(fallback),
    }
}

} // verus!
