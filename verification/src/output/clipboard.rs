//! Clipboard layer: which command-line helper serves the clipboard, the
//! commands that write and read it, and how their exits are reported.
use vstd::prelude::*;

use crate::text::{debug_option_i32, debug_option_int};
use vstd::utf8::{decode_utf8, valid_utf8};

verus! {

/// Writing and reading the clipboard. Implemented outside this crate for
/// the command-line helpers, and meant to be implemented again by a native
/// clipboard later.
pub trait ClipboardBackend {
    /// Puts `text` on the clipboard.
    fn write(&self, text: &str) -> Result<(), String>;

    /// Reads the clipboard's text (best effort).
    fn read(&self) -> Result<String, String>;
}

/// Which clipboard helper was found.
#[derive(Debug, Clone, Copy, PartialEq, Eq)]
pub enum ClipboardImpl {
    /// No command-line helper is available.
    NoHelper,
    /// Wayland (`wl-copy` / `wl-paste`).
    WlCopy,
    /// X11 (`xclip`).
    XClip,
}

/// The human-readable name of a clipboard helper.
pub open spec fn spec_clipboard_label(c: ClipboardImpl) -> Seq<char> {
    match c {
        ClipboardImpl::NoHelper => "yok"@,
        ClipboardImpl::WlCopy => "wl-copy"@,
        ClipboardImpl::XClip => "xclip"@,
    }
}

impl ClipboardImpl {
    /// The human-readable name (for the system health screen and the paste
    /// chain report).
    pub fn label(self) -> (s: &'static str)
        ensures
            s@ == spec_clipboard_label(self),
            s@.len() > 0,
    {
        match self {
            ClipboardImpl::NoHelper => {
                proof {
                    reveal_strlit("yok");
                }
                "yok"
            },
            ClipboardImpl::WlCopy => {
                proof {
                    reveal_strlit("wl-copy");
                }
                "wl-copy"
            },
            ClipboardImpl::XClip => {
                proof {
                    reveal_strlit("xclip");
                }
                "xclip"
            },
        }
    }
}

/// The helper to use given which helpers are installed: `wl-copy` first,
/// then `xclip`, else none.
pub open spec fn spec_detect_clipboard(wl_copy_available: bool, xclip_available: bool) -> ClipboardImpl {
    if wl_copy_available {
        ClipboardImpl::WlCopy
    } else if xclip_available {
        ClipboardImpl::XClip
    } else {
        ClipboardImpl::NoHelper
    }
}

/// Picks the clipboard helper from what is installed: `wl-copy` if present,
/// otherwise `xclip`, otherwise none.
pub fn detect_clipboard(wl_copy_available: bool, xclip_available: bool) -> (c: ClipboardImpl)
    ensures
        c == spec_detect_clipboard(wl_copy_available, xclip_available),
{
    if wl_copy_available {
        ClipboardImpl::WlCopy
    } else if xclip_available {
        ClipboardImpl::XClip
    } else {
        ClipboardImpl::NoHelper
    }
}

/// A clipboard served by a command-line helper.
#[derive(Debug)]
pub struct SystemClipboard {
    backend: ClipboardImpl,
}

/// A helper program and its arguments.
#[derive(Debug)]
pub struct ClipboardCommand {
    pub program: &'static str,
    pub args: Vec<&'static str>,
}

/// The texts of a command's arguments.
pub open spec fn arg_texts(args: Seq<&'static str>) -> Seq<Seq<char>> {
    args.map_values(|a: &'static str| a@)
}

/// The message when no helper can write the clipboard.
pub open spec fn no_writer_message() -> Seq<char> {
    "pano CLI yardımcısı bulunamadı (wl-copy/xclip). Kurulum için §11/a §8.1'e bakın."@
}

/// The message when no helper can read the clipboard.
pub open spec fn no_reader_message() -> Seq<char> {
    "pano CLI yardımcısı bulunamadı (wl-paste/xclip)."@
}

impl SystemClipboard {
    /// The helper of this clipboard.
    pub closed spec fn spec_backend(&self) -> ClipboardImpl {
        self.backend
    }

    /// A clipboard using the helper picked from what is installed.
    pub fn new(wl_copy_available: bool, xclip_available: bool) -> (c: SystemClipboard)
        ensures
            c.spec_backend() == spec_detect_clipboard(wl_copy_available, xclip_available),
    {
        SystemClipboard { backend: detect_clipboard(wl_copy_available, xclip_available) }
    }

    /// A clipboard using the given helper.
    pub fn with_backend(backend: ClipboardImpl) -> (c: SystemClipboard)
        ensures
            c.spec_backend() == backend,
    {
        SystemClipboard { backend }
    }

    /// The helper this clipboard uses.
    pub fn backend(&self) -> (b: ClipboardImpl)
        ensures
            b == self.spec_backend(),
    {
        self.backend
    }

    /// The command that puts text on the clipboard (the text goes to its
    /// standard input); an error when no helper is available.
    pub fn write_command(&self) -> (r: Result<ClipboardCommand, String>)
        ensures
            match self.spec_backend() {
                ClipboardImpl::WlCopy => r matches Ok(c) && c.program@ == "wl-copy"@ && arg_texts(
                    c.args@,
                ) == Seq::<Seq<char>>::empty(),
                ClipboardImpl::XClip => r matches Ok(c) && c.program@ == "xclip"@ && arg_texts(c.args@)
                    == seq!["-selection"@, "clipboard"@],
                ClipboardImpl::NoHelper => r matches Err(m) && m@ == no_writer_message(),
            },
    {
        match self.backend {
            ClipboardImpl::WlCopy => {
                let args: Vec<&'static str> = Vec::new();
                proof {
                    assert(arg_texts(args@) =~= Seq::<Seq<char>>::empty());
                }
                Ok(ClipboardCommand { program: "wl-copy", args })
            },
            ClipboardImpl::XClip => {
                let args: Vec<&'static str> = vec!["-selection", "clipboard"];
                proof {
                    assert(arg_texts(args@) =~= seq!["-selection"@, "clipboard"@]);
                }
                Ok(ClipboardCommand { program: "xclip", args })
            },
            ClipboardImpl::NoHelper => Err(
                String::from_str(
                    "pano CLI yardımcısı bulunamadı (wl-copy/xclip). Kurulum için §11/a §8.1'e bakın.",
                ),
            ),
        }
    }

    /// The command whose standard output is the clipboard's content; an
    /// error when no helper is available.
    pub fn read_command(&self) -> (r: Result<ClipboardCommand, String>)
        ensures
            match self.spec_backend() {
                ClipboardImpl::WlCopy => r matches Ok(c) && c.program@ == "wl-paste"@ && arg_texts(
                    c.args@,
                ) == Seq::<Seq<char>>::empty(),
                ClipboardImpl::XClip => r matches Ok(c) && c.program@ == "xclip"@ && arg_texts(c.args@)
                    == seq!["-selection"@, "clipboard"@, "-o"@],
                ClipboardImpl::NoHelper => r matches Err(m) && m@ == no_reader_message(),
            },
    {
        match self.backend {
            ClipboardImpl::WlCopy => {
                let args: Vec<&'static str> = Vec::new();
                proof {
                    assert(arg_texts(args@) =~= Seq::<Seq<char>>::empty());
                }
                Ok(ClipboardCommand { program: "wl-paste", args })
            },
            ClipboardImpl::XClip => {
                let args: Vec<&'static str> = vec!["-selection", "clipboard", "-o"];
                proof {
                    assert(arg_texts(args@) =~= seq!["-selection"@, "clipboard"@, "-o"@]);
                }
                Ok(ClipboardCommand { program: "xclip", args })
            },
            ClipboardImpl::NoHelper => Err(
                String::from_str("pano CLI yardımcısı bulunamadı (wl-paste/xclip)."),
            ),
        }
    }
}

/// The report of a helper that exited unsuccessfully: `<program> exit
/// <code>` with the exit code as `Some(n)` or `None`.
pub open spec fn exit_message(program: Seq<char>, code: Option<i32>) -> Seq<char> {
    program + " exit "@ + debug_option_int(code)
}

/// The result of a clipboard write from the helper's exit status.
pub fn status_result(program: &str, success: bool, code: Option<i32>) -> (r: Result<(), String>)
    ensures
        success ==> r is Ok,
        !success ==> (r matches Err(m) && m@ == exit_message(program@, code)),
{
    if success {
        Ok(())
    } else {
        Err(String::from_str(program).concat(" exit ").concat(debug_option_i32(code).as_str()))
    }
}

/// Whether `c` has the Unicode `White_Space` property, as
/// `char::is_whitespace` documents it.
pub open spec fn is_white_space(c: char) -> bool {
    let v = c as u32;
    ||| 0x09 <= v <= 0x0d
    ||| v == 0x20
    ||| v == 0x85
    ||| v == 0xa0
    ||| v == 0x1680
    ||| 0x2000 <= v <= 0x200a
    ||| v == 0x2028
    ||| v == 0x2029
    ||| v == 0x202f
    ||| v == 0x205f
    ||| v == 0x3000
}

/// `s` without its leading white space.
pub open spec fn trimmed_start(s: Seq<char>) -> Seq<char>
    decreases s.len(),
{
    if s.len() > 0 && is_white_space(s[0]) {
        trimmed_start(s.drop_first())
    } else {
        s
    }
}

/// `s` without its trailing white space.
pub open spec fn trimmed_end(s: Seq<char>) -> Seq<char>
    decreases s.len(),
{
    if s.len() > 0 && is_white_space(s.last()) {
        trimmed_end(s.drop_last())
    } else {
        s
    }
}

/// `s` without its leading and trailing white space.
pub open spec fn trimmed(s: Seq<char>) -> Seq<char> {
    trimmed_end(trimmed_start(s))
}

/// `str::trim`: the text without leading and trailing white space (Unicode
/// `White_Space`, as its documentation says).
#[verifier::external_body]
pub(crate) fn trim_str(s: &str) -> (r: &str)
    ensures
        r@ == trimmed(s@),
{
    s.trim()
}

/// The result of a clipboard read from the helper's exit status, captured
/// standard output and (lossily decoded) standard error: the output on
/// success, otherwise `<program>: <detail>`, where the detail is the error
/// text, or the exit report when the error text is blank.
pub fn capture_result(program: &str, success: bool, code: Option<i32>, stdout: Vec<u8>, stderr: &str) -> (r:
    Result<Vec<u8>, String>)
    ensures
        success ==> r == Ok::<Vec<u8>, String>(stdout),
        !success ==> (r matches Err(m) && m@ == program@ + ": "@ + (if trimmed(stderr@).len() == 0 {
            "exit "@ + debug_option_int(code)
        } else {
            stderr@
        })),
{
    if success {
        return Ok(stdout);
    }
    let detail: String = if trim_str(stderr).is_empty() {
        String::from_str("exit ").concat(debug_option_i32(code).as_str())
    } else {
        String::from_str(stderr)
    };
    Err(String::from_str(program).concat(": ").concat(detail.as_str()))
}

/// `String::from_utf8`. Claims that it succeeds exactly on byte sequences
/// that are valid UTF-8 (as `vstd::utf8::valid_utf8` defines it, the
/// standard's well-formed encoding) and then holds the decoded characters.
/// On failure it hands back the error's text, which is not stated.
#[verifier::external_body]
fn utf8_string(bytes: Vec<u8>) -> (r: Result<String, String>)
    ensures
        r is Ok <==> valid_utf8(bytes@),
        r matches Ok(s) ==> s@ == decode_utf8(bytes@),
{
    String::from_utf8(bytes).map_err(|e| e.to_string())
}

/// The prefix of the message for clipboard content that is not UTF-8.
pub open spec fn not_utf8_prefix() -> Seq<char> {
    "pano içeriği geçerli UTF-8 değil: "@
}

/// The clipboard's text from the bytes a helper printed: the decoded text
/// when they are valid UTF-8, otherwise an error naming the problem.
pub fn clipboard_text(bytes: Vec<u8>) -> (r: Result<String, String>)
    ensures
        r is Ok <==> valid_utf8(bytes@),
        r matches Ok(s) ==> s@ == decode_utf8(bytes@),
        r matches Err(m) ==> (exists|d: Seq<char>| m@ == not_utf8_prefix() + d),
{
    match utf8_string(bytes) {
        Ok(s) => Ok(s),
        Err(e) => {
            let m = String::from_str("pano içeriği geçerli UTF-8 değil: ").concat(e.as_str());
            assert(m@ == not_utf8_prefix() + e@);
            Err(m)
        },
    }
}

} // verus!
