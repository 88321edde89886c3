//! The paste chain: the ordered list of ways to deliver text (remote-desktop
//! portal, ydotool, X11, clipboard only), the report of which are available,
//! and the decisions taken as each attempt succeeds or fails.
use vstd::prelude::*;

use crate::output::clipboard::{spec_clipboard_label, trim_str, trimmed, ClipboardImpl};
use crate::text::{debug_option_i32, debug_option_int, join_with, signed_decimal, signed_decimal_string};

verus! {

/// A way of delivering text.
#[derive(Debug, Clone, Copy, PartialEq, Eq)]
pub enum PasteBackend {
    /// No way worked.
    NoBackend,
    /// The remote-desktop portal (first choice).
    Portal,
    /// ydotool (second choice).
    Ydotool,
    /// Direct X11 injection (third choice).
    X11,
    /// Clipboard only (last resort).
    Clipboard,
}

/// The human-readable name of a way of delivering text.
pub open spec fn spec_paste_label(b: PasteBackend) -> Seq<char> {
    match b {
        PasteBackend::NoBackend => "hiçbiri"@,
        PasteBackend::Portal => "RemoteDesktop portalı"@,
        PasteBackend::Ydotool => "ydotool"@,
        PasteBackend::X11 => "X11"@,
        PasteBackend::Clipboard => "yalnızca pano"@,
    }
}

impl PasteBackend {
    /// The human-readable name (for the system health screen).
    pub fn label(self) -> (s: &'static str)
        ensures
            s@ == spec_paste_label(self),
            s@.len() > 0,
    {
        match self {
            PasteBackend::NoBackend => {
                proof {
                    reveal_strlit("hiçbiri");
                }
                "hiçbiri"
            },
            PasteBackend::Portal => {
                proof {
                    reveal_strlit("RemoteDesktop portalı");
                }
                "RemoteDesktop portalı"
            },
            PasteBackend::Ydotool => {
                proof {
                    reveal_strlit("ydotool");
                }
                "ydotool"
            },
            PasteBackend::X11 => {
                proof {
                    reveal_strlit("X11");
                }
                "X11"
            },
            PasteBackend::Clipboard => {
                proof {
                    reveal_strlit("yalnızca pano");
                }
                "yalnızca pano"
            },
        }
    }
}

/// The outcome of one paste: which way was used, whether the clipboard was
/// written, whether Ctrl+V was actually sent, and a human-readable account.
#[derive(Debug, Clone)]
pub struct PasteResult {
    pub backend: PasteBackend,
    pub clipboard_written: bool,
    pub ctrl_v_sent: bool,
    pub message: String,
}

impl PasteResult {
    /// A paste outcome with the given fields.
    pub fn new(backend: PasteBackend, clipboard_written: bool, ctrl_v_sent: bool, message: String) -> (r:
        PasteResult)
        ensures
            r.backend == backend,
            r.clipboard_written == clipboard_written,
            r.ctrl_v_sent == ctrl_v_sent,
            r.message == message,
    {
        PasteResult { backend, clipboard_written, ctrl_v_sent, message }
    }
}

/// Which ways of delivering text this machine offers.
#[derive(Debug, Clone)]
pub struct Detection {
    /// The remote-desktop portal answers on the session bus.
    pub portal: bool,
    /// The ydotool binary exists and `/dev/uinput` is writable.
    pub ydotool: bool,
    /// The ydotool daemon is running.
    pub ydotool_daemon: bool,
    /// An X11/XWayland session is present.
    pub x11: bool,
    /// The clipboard helper.
    pub clipboard: ClipboardImpl,
}

/// The ways that will be tried on this machine, in order; "none" when no
/// way is available.
pub open spec fn preferred_chain(d: Detection) -> Seq<PasteBackend> {
    let c = (if d.portal {
        seq![PasteBackend::Portal]
    } else {
        Seq::empty()
    }) + (if d.ydotool {
        seq![PasteBackend::Ydotool]
    } else {
        Seq::empty()
    }) + (if d.x11 {
        seq![PasteBackend::X11]
    } else {
        Seq::empty()
    }) + (if d.clipboard != ClipboardImpl::NoHelper {
        seq![PasteBackend::Clipboard]
    } else {
        Seq::empty()
    });
    if c.len() == 0 {
        seq![PasteBackend::NoBackend]
    } else {
        c
    }
}

/// The labels of a chain.
pub open spec fn chain_labels(c: Seq<PasteBackend>) -> Seq<Seq<char>> {
    c.map_values(|b: PasteBackend| spec_paste_label(b))
}

proof fn lemma_label_nonempty(b: PasteBackend)
    ensures
        spec_paste_label(b).len() > 0,
{
    reveal_strlit("hiçbiri");
    reveal_strlit("RemoteDesktop portalı");
    reveal_strlit("ydotool");
    reveal_strlit("X11");
    reveal_strlit("yalnızca pano");
}

proof fn lemma_join_keeps_last(parts: Seq<Seq<char>>, sep: Seq<char>)
    requires
        parts.len() >= 1,
    ensures
        join_with(parts, sep).len() >= parts.last().len(),
{
}

fn push_backend(chain: &mut Vec<PasteBackend>, b: PasteBackend)
    ensures
        final(chain)@ == old(chain)@.push(b),
{
    chain.push(b);
}

impl Detection {
    /// The paste chain this machine will use, as text: the available ways in
    /// order, joined by " → ". Never empty.
    pub fn preferred_chain_label(&self) -> (s: String)
        ensures
            s@ == join_with(chain_labels(preferred_chain(*self)), " → "@),
            s@.len() > 0,
    {
        let mut chain: Vec<PasteBackend> = Vec::new();
        if self.portal {
            push_backend(&mut chain, PasteBackend::Portal);
        }
        if self.ydotool {
            push_backend(&mut chain, PasteBackend::Ydotool);
        }
        if self.x11 {
            push_backend(&mut chain, PasteBackend::X11);
        }
        match self.clipboard {
            ClipboardImpl::NoHelper => {},
            _ => push_backend(&mut chain, PasteBackend::Clipboard),
        }
        if chain.len() == 0 {
            push_backend(&mut chain, PasteBackend::NoBackend);
        }
        assert(chain@ =~= preferred_chain(*self));
        let ghost labels = chain_labels(chain@);
        let mut out = String::new();
        let n: usize = chain.len();
        let mut i: usize = 0;
        while i < n
            invariant
                n == chain@.len(),
                labels == chain_labels(chain@),
                i <= n,
                out@ == join_with(labels.take(i as int), " → "@),
            decreases n - i,
        {
            let label = chain[i].label();
            if i == 0 {
                out.append(label);
            } else {
                out.append(" → ");
                out.append(label);
            }
            proof {
                assert(labels.take(i + 1).drop_last() =~= labels.take(i as int));
                assert(labels.take(i + 1).last() == labels[i as int]);
                if i == 0 {
                    assert(out@ =~= join_with(labels.take(1), " → "@));
                }
            }
            i = i + 1;
        }
        assert(labels.take(n as int) =~= labels);
        proof {
            lemma_label_nonempty(chain@.last());
            lemma_join_keeps_last(labels, " → "@);
        }
        out
    }
}

/// The place of a way in the order in which the chain tries them.
pub open spec fn chain_rank(b: PasteBackend) -> int {
    match b {
        PasteBackend::Portal => 0,
        PasteBackend::Ydotool => 1,
        PasteBackend::X11 => 2,
        PasteBackend::Clipboard => 3,
        PasteBackend::NoBackend => 4,
    }
}

/// The chain of a machine lists exactly the ways that machine offers, each
/// once, in the order portal, ydotool, X11, clipboard only; it is "none"
/// exactly when no way is offered.
pub proof fn chain_lists_available_ways_in_order(d: Detection)
    ensures
        preferred_chain(d).contains(PasteBackend::Portal) <==> d.portal,
        preferred_chain(d).contains(PasteBackend::Ydotool) <==> d.ydotool,
        preferred_chain(d).contains(PasteBackend::X11) <==> d.x11,
        preferred_chain(d).contains(PasteBackend::Clipboard) <==> d.clipboard != ClipboardImpl::NoHelper,
        preferred_chain(d).contains(PasteBackend::NoBackend) <==> (!d.portal && !d.ydotool && !d.x11
            && d.clipboard == ClipboardImpl::NoHelper),
        preferred_chain(d) == seq![PasteBackend::NoBackend] <==> (!d.portal && !d.ydotool && !d.x11
            && d.clipboard == ClipboardImpl::NoHelper),
        forall|i: int, j: int|
            0 <= i < j < preferred_chain(d).len() ==> chain_rank(#[trigger] preferred_chain(d)[i])
                < chain_rank(#[trigger] preferred_chain(d)[j]),
{
    let c = preferred_chain(d);
    assert(c.contains(PasteBackend::Portal) ==> d.portal);
    assert(c.contains(PasteBackend::Ydotool) ==> d.ydotool);
    assert(c.contains(PasteBackend::X11) ==> d.x11);
    assert(c.contains(PasteBackend::Clipboard) ==> d.clipboard != ClipboardImpl::NoHelper);
    if d.portal {
        assert(c[0] == PasteBackend::Portal);
    }
    if d.ydotool {
        let k: int = if d.portal { 1 } else { 0 };
        assert(c[k] == PasteBackend::Ydotool);
    }
    if d.x11 {
        let k: int = (if d.portal { 1int } else { 0 }) + (if d.ydotool { 1int } else { 0 });
        assert(c[k] == PasteBackend::X11);
    }
    if d.clipboard != ClipboardImpl::NoHelper {
        assert(c[c.len() - 1] == PasteBackend::Clipboard);
    }
    if !d.portal && !d.ydotool && !d.x11 && d.clipboard == ClipboardImpl::NoHelper {
        assert(c[0] == PasteBackend::NoBackend);
    }
}

proof fn lemma_join_ends_with_last(parts: Seq<Seq<char>>, sep: Seq<char>)
    requires
        parts.len() >= 1,
    ensures
        join_with(parts, sep).len() >= parts.last().len(),
        join_with(parts, sep).subrange(
            join_with(parts, sep).len() - parts.last().len(),
            join_with(parts, sep).len() as int,
        ) == parts.last(),
{
    let j = join_with(parts, sep);
    if parts.len() == 1 {
        assert(j.subrange(0, j.len() as int) =~= j);
    } else {
        let head = join_with(parts.drop_last(), sep) + sep;
        assert(j == head + parts.last());
        assert(j.subrange(head.len() as int, j.len() as int) =~= parts.last());
    }
}

/// The chain's report ends with the clipboard-only fallback exactly when a
/// clipboard helper is available, whatever the other ways are.
pub proof fn chain_report_ends_with_clipboard_iff_helper(d: Detection)
    ensures
        ({
            let report = join_with(chain_labels(preferred_chain(d)), " → "@);
            let tail = "yalnızca pano"@;
            (report.len() >= tail.len() && report.subrange(report.len() - tail.len(), report.len() as int)
                == tail) <==> d.clipboard != ClipboardImpl::NoHelper
        }),
{
    reveal_strlit("hiçbiri");
    reveal_strlit("RemoteDesktop portalı");
    reveal_strlit("ydotool");
    reveal_strlit("X11");
    reveal_strlit("yalnızca pano");
    let c = preferred_chain(d);
    let labels = chain_labels(c);
    let report = join_with(labels, " → "@);
    let tail = "yalnızca pano"@;
    assert(c.len() >= 1);
    lemma_join_ends_with_last(labels, " → "@);
    let last = labels.last();
    assert(last == spec_paste_label(c.last()));
    if report.len() >= tail.len() && report.subrange(report.len() - tail.len(), report.len() as int)
        == tail {
        // The last characters of the report are those of the last label.
        assert(report[report.len() - 1] == tail[tail.len() - 1]);
        assert(report[report.len() - 1] == last[last.len() - 1]);
        assert(c.last() == PasteBackend::Clipboard);
    }
    if d.clipboard != ClipboardImpl::NoHelper {
        assert(c.last() == PasteBackend::Clipboard);
        assert(last == tail);
    }
}

/// What the paste chain asks the caller to do next.
#[derive(Debug)]
pub enum PasteAction {
    /// Connect to the remote-desktop portal and send Ctrl+V through it.
    TryPortal,
    /// If ydotool is usable: write the clipboard, then send Ctrl+V with it.
    TryYdotool,
    /// If an X11/XWayland session is present: inject Ctrl+V directly into it.
    TryX11,
    /// Write the text to the clipboard.
    WriteClipboard,
    /// Done; report this outcome.
    Finish(PasteResult),
}

/// What the caller reports back to the paste chain.
#[derive(Debug)]
pub enum PasteEvent {
    /// A new paste begins.
    Start,
    /// The portal attempt ended; `sent` when Ctrl+V went through it.
    PortalDone { sent: bool },
    /// ydotool was not usable, or writing the clipboard or starting ydotool
    /// failed.
    YdotoolFailed,
    /// ydotool ran and exited with this status.
    YdotoolExited { success: bool, code: Option<i32> },
    /// The X11 attempt ended; `sent` when Ctrl+V was injected (false when no
    /// X11 session is present or the injection failed).
    X11Done { sent: bool },
    /// The clipboard-only fallback ended; `wrote` when the text is on the
    /// clipboard served by `clipboard`.
    ClipboardDone { wrote: bool, clipboard: ClipboardImpl },
}

/// The account given after a portal paste.
pub open spec fn portal_message() -> Seq<char> {
    "RemoteDesktop portalı ile Ctrl+V gönderildi"@
}

/// The account given after a ydotool paste.
pub open spec fn ydotool_message() -> Seq<char> {
    "ydotool Ctrl+V gönderildi (uinput erişilebilir)"@
}

/// The account given after an X11 paste.
pub open spec fn x11_message() -> Seq<char> {
    "X11 ile Ctrl+V gönderildi (doğrudan enjeksiyon)"@
}

/// The account given after the clipboard-only fallback.
pub open spec fn clipboard_message(wrote: bool, clipboard: ClipboardImpl) -> Seq<char> {
    if wrote {
        "Metin panoda; Ctrl+V ile yapıştır (pano: "@ + spec_clipboard_label(clipboard) + ")"@
    } else {
        "Pano yazılamadı — §11 'Sistem Sağlığı'na bakın"@
    }
}

/// The report of a failed ydotool run.
pub open spec fn ydotool_exit_message(code: Option<i32>) -> Seq<char> {
    "ydotool exit kodu: "@ + debug_option_int(code)
}

/// The result of a ydotool paste from the ydotool process's exit status:
/// a ydotool outcome with the clipboard written and Ctrl+V sent when it
/// succeeded, otherwise an error reporting the exit code.
pub fn ydotool_result(success: bool, code: Option<i32>) -> (r: Result<PasteResult, String>)
    ensures
        success ==> (r matches Ok(p) && p.backend == PasteBackend::Ydotool && p.clipboard_written
            && p.ctrl_v_sent && p.message@ == ydotool_message()),
        !success ==> (r matches Err(m) && m@ == ydotool_exit_message(code)),
{
    if success {
        Ok(
            PasteResult::new(
                PasteBackend::Ydotool,
                true,
                true,
                String::from_str("ydotool Ctrl+V gönderildi (uinput erişilebilir)"),
            ),
        )
    } else {
        Err(String::from_str("ydotool exit kodu: ").concat(debug_option_i32(code).as_str()))
    }
}

/// The kind of a paste-chain step; a finished step names the way used.
#[derive(Debug, Clone, Copy, PartialEq, Eq)]
pub enum PasteStep {
    TryPortal,
    TryYdotool,
    TryX11,
    WriteClipboard,
    Finish(PasteBackend),
}

/// The step the chain takes after `event`.
pub open spec fn spec_paste_step(event: PasteEvent) -> PasteStep {
    match event {
        PasteEvent::Start => PasteStep::TryPortal,
        PasteEvent::PortalDone { sent } => if sent {
            PasteStep::Finish(PasteBackend::Portal)
        } else {
            PasteStep::TryYdotool
        },
        PasteEvent::YdotoolFailed => PasteStep::TryX11,
        PasteEvent::YdotoolExited { success, .. } => if success {
            PasteStep::Finish(PasteBackend::Ydotool)
        } else {
            PasteStep::TryX11
        },
        PasteEvent::X11Done { sent } => if sent {
            PasteStep::Finish(PasteBackend::X11)
        } else {
            PasteStep::WriteClipboard
        },
        PasteEvent::ClipboardDone { .. } => PasteStep::Finish(PasteBackend::Clipboard),
    }
}

/// The kind of an action.
pub open spec fn action_step(a: PasteAction) -> PasteStep {
    match a {
        PasteAction::TryPortal => PasteStep::TryPortal,
        PasteAction::TryYdotool => PasteStep::TryYdotool,
        PasteAction::TryX11 => PasteStep::TryX11,
        PasteAction::WriteClipboard => PasteStep::WriteClipboard,
        PasteAction::Finish(p) => PasteStep::Finish(p.backend),
    }
}

/// The event that reports the outcome of the step `step`, for a run in
/// which the portal sends Ctrl+V when `portal_sent`, ydotool succeeds when
/// `ydotool_ok`, X11 injection succeeds when `x11_sent`, and writing the
/// clipboard succeeds when `wrote`.
pub open spec fn outcome_of(
    step: PasteStep,
    portal_sent: bool,
    ydotool_ok: bool,
    x11_sent: bool,
    wrote: bool,
) -> PasteEvent {
    match step {
        PasteStep::TryPortal => PasteEvent::PortalDone { sent: portal_sent },
        PasteStep::TryYdotool => PasteEvent::YdotoolExited { success: ydotool_ok, code: None },
        PasteStep::TryX11 => PasteEvent::X11Done { sent: x11_sent },
        _ => PasteEvent::ClipboardDone { wrote, clipboard: ClipboardImpl::NoHelper },
    }
}

/// A paste always delivers: whatever the portal, ydotool, X11 and the
/// clipboard do, at most four steps after the start the chain has finished,
/// with the first way that worked (portal, then ydotool, then X11), else
/// clipboard only; it never finishes with nothing.
pub proof fn paste_chain_always_finishes(portal_sent: bool, ydotool_ok: bool, x11_sent: bool, wrote: bool)
    ensures
        ({
            let s0 = spec_paste_step(PasteEvent::Start);
            let s1 = spec_paste_step(outcome_of(s0, portal_sent, ydotool_ok, x11_sent, wrote));
            let s2 = if s1 is Finish {
                s1
            } else {
                spec_paste_step(outcome_of(s1, portal_sent, ydotool_ok, x11_sent, wrote))
            };
            let s3 = if s2 is Finish {
                s2
            } else {
                spec_paste_step(outcome_of(s2, portal_sent, ydotool_ok, x11_sent, wrote))
            };
            let s4 = if s3 is Finish {
                s3
            } else {
                spec_paste_step(outcome_of(s3, portal_sent, ydotool_ok, x11_sent, wrote))
            };
            &&& s0 == PasteStep::TryPortal
            &&& s4 == PasteStep::Finish(
                if portal_sent {
                    PasteBackend::Portal
                } else if ydotool_ok {
                    PasteBackend::Ydotool
                } else if x11_sent {
                    PasteBackend::X11
                } else {
                    PasteBackend::Clipboard
                },
            )
        }),
        forall|e: PasteEvent|
            #[trigger] spec_paste_step(e) matches PasteStep::Finish(b) ==> b != PasteBackend::NoBackend,
{
}

/// The next step of the paste chain. The portal is tried first, then
/// ydotool, then direct X11 injection, then the clipboard alone; the first
/// way that works ends the chain, and the clipboard step always ends it, so
/// a paste never ends with nothing done.
pub fn paste_next(event: PasteEvent) -> (a: PasteAction)
    ensures
        action_step(a) == spec_paste_step(event),
        match event {
            PasteEvent::Start => a is TryPortal,
            PasteEvent::PortalDone { sent } => if sent {
                a matches PasteAction::Finish(p) && p.backend == PasteBackend::Portal
                    && !p.clipboard_written && p.ctrl_v_sent && p.message@ == portal_message()
            } else {
                a is TryYdotool
            },
            PasteEvent::YdotoolFailed => a is TryX11,
            PasteEvent::YdotoolExited { success, code } => if success {
                a matches PasteAction::Finish(p) && p.backend == PasteBackend::Ydotool
                    && p.clipboard_written && p.ctrl_v_sent && p.message@ == ydotool_message()
            } else {
                a is TryX11
            },
            PasteEvent::X11Done { sent } => if sent {
                a matches PasteAction::Finish(p) && p.backend == PasteBackend::X11
                    && !p.clipboard_written && p.ctrl_v_sent && p.message@ == x11_message()
            } else {
                a is WriteClipboard
            },
            PasteEvent::ClipboardDone { wrote, clipboard } => a matches PasteAction::Finish(p)
                && p.backend == PasteBackend::Clipboard && p.clipboard_written == wrote
                && !p.ctrl_v_sent && p.message@ == clipboard_message(wrote, clipboard),
        },
{
    match event {
        PasteEvent::Start => PasteAction::TryPortal,
        PasteEvent::PortalDone { sent } => {
            if sent {
                PasteAction::Finish(
                    PasteResult::new(
                        PasteBackend::Portal,
                        false,
                        true,
                        String::from_str("RemoteDesktop portalı ile Ctrl+V gönderildi"),
                    ),
                )
            } else {
                PasteAction::TryYdotool
            }
        },
        PasteEvent::YdotoolFailed => PasteAction::TryX11,
        PasteEvent::YdotoolExited { success, code } => match ydotool_result(success, code) {
            Ok(p) => PasteAction::Finish(p),
            Err(_) => PasteAction::TryX11,
        },
        PasteEvent::X11Done { sent } => {
            if sent {
                PasteAction::Finish(
                    PasteResult::new(
                        PasteBackend::X11,
                        false,
                        true,
                        String::from_str("X11 ile Ctrl+V gönderildi (doğrudan enjeksiyon)"),
                    ),
                )
            } else {
                PasteAction::WriteClipboard
            }
        },
        PasteEvent::ClipboardDone { wrote, clipboard } => {
            let message = if wrote {
                String::from_str("Metin panoda; Ctrl+V ile yapıştır (pano: ").concat(
                    clipboard.label(),
                ).concat(")")
            } else {
                String::from_str("Pano yazılamadı — §11 'Sistem Sağlığı'na bakın")
            };
            PasteAction::Finish(PasteResult::new(PasteBackend::Clipboard, wrote, false, message))
        },
    }
}

/// Linux evdev key code of the left Ctrl key.
pub const KEY_LEFTCTRL: i32 = 29;

/// Linux evdev key code of the V key.
pub const KEY_V: i32 = 47;

/// The Ctrl+V chord as (key code, pressed) steps: Ctrl down, V down, V up,
/// Ctrl up. The portal and ydotool both send it.
pub fn ctrl_v_chord() -> (keys: Vec<(i32, bool)>)
    ensures
        keys@ == spec_ctrl_v_chord(),
{
    let keys = vec![(KEY_LEFTCTRL, true), (KEY_V, true), (KEY_V, false), (KEY_LEFTCTRL, false)];
    assert(keys@ =~= seq![(KEY_LEFTCTRL, true), (KEY_V, true), (KEY_V, false), (KEY_LEFTCTRL, false)]);
    keys
}

/// The Ctrl+V chord as a list.
pub open spec fn spec_ctrl_v_chord() -> Seq<(i32, bool)> {
    seq![(KEY_LEFTCTRL, true), (KEY_V, true), (KEY_V, false), (KEY_LEFTCTRL, false)]
}

/// One step of a chord as `ydotool key` takes it: `<code>:1` to press,
/// `<code>:0` to release.
pub open spec fn key_step_arg(step: (i32, bool)) -> Seq<char> {
    signed_decimal(step.0 as int) + ":"@ + (if step.1 {
        "1"@
    } else {
        "0"@
    })
}

/// The arguments of the `ydotool` run that sends Ctrl+V: `key` followed by
/// the chord's steps (`key 29:1 47:1 47:0 29:0`).
pub fn ydotool_key_args() -> (args: Vec<String>)
    ensures
        args@.len() == 5,
        args@[0]@ == "key"@,
        forall|i: int| 0 <= i < 4 ==> #[trigger] args@[i + 1]@ == key_step_arg(spec_ctrl_v_chord()[i]),
{
    let chord = ctrl_v_chord();
    let mut args: Vec<String> = Vec::new();
    args.push(String::from_str("key"));
    let mut i: usize = 0;
    while i < chord.len()
        invariant
            chord@ == spec_ctrl_v_chord(),
            i <= chord@.len(),
            args@.len() == i + 1,
            args@[0]@ == "key"@,
            forall|j: int| 0 <= j < i ==> #[trigger] args@[j + 1]@ == key_step_arg(spec_ctrl_v_chord()[j]),
        decreases chord@.len() - i,
    {
        let (code, pressed) = chord[i];
        let state: &str = if pressed {
            "1"
        } else {
            "0"
        };
        let arg = signed_decimal_string(code).concat(":").concat(state);
        args.push(arg);
        i = i + 1;
    }
    args
}

/// ydotool is usable when its binary is installed and `/dev/uinput` can be
/// opened for writing.
pub fn ydotool_ready(binary_found: bool, uinput_writable: bool) -> (r: bool)
    ensures
        r == (binary_found && uinput_writable),
{
    binary_found && uinput_writable
}

/// An X11/XWayland session is present when `DISPLAY` is set to something
/// other than blanks.
pub fn x11_session(display: Option<&str>) -> (r: bool)
    ensures
        r == (display matches Some(d) && trimmed(d@).len() != 0),
{
    match display {
        Some(d) => !trim_str(d).is_empty(),
        None => false,
    }
}

} // verus!
