use mirilti::output::clipboard::ClipboardImpl;
use mirilti::output::inject::{
    ctrl_v_chord, paste_next, ydotool_key_args, x11_session, ydotool_ready, ydotool_result, Detection, PasteAction, PasteBackend,
    PasteEvent, PasteResult,
};

fn detection(portal: bool, ydotool: bool, x11: bool, clipboard: ClipboardImpl) -> Detection {
    Detection { portal, ydotool, ydotool_daemon: false, x11, clipboard }
}

#[test]
fn detect_never_panics_and_reports_booleans() {
    for p in [false, true] {
        for y in [false, true] {
            for x in [false, true] {
                for c in [ClipboardImpl::NoHelper, ClipboardImpl::WlCopy, ClipboardImpl::XClip] {
                    let d = detection(p, y, x, c);
                    let _ = (d.portal, d.ydotool, d.ydotool_daemon, d.x11, d.clipboard);
                    assert!(!d.preferred_chain_label().is_empty());
                }
            }
        }
    }
}

#[test]
fn chain_label_lists_available_ways_in_order() {
    assert_eq!(
        detection(true, true, true, ClipboardImpl::WlCopy).preferred_chain_label(),
        "RemoteDesktop portalı → ydotool → X11 → yalnızca pano"
    );
    assert_eq!(detection(false, true, false, ClipboardImpl::XClip).preferred_chain_label(), "ydotool → yalnızca pano");
    assert_eq!(detection(false, false, false, ClipboardImpl::NoHelper).preferred_chain_label(), "hiçbiri");
    assert_eq!(detection(false, false, true, ClipboardImpl::NoHelper).preferred_chain_label(), "X11");
}

#[test]
fn backend_labels() {
    assert_eq!(PasteBackend::NoBackend.label(), "hiçbiri");
    assert_eq!(PasteBackend::Portal.label(), "RemoteDesktop portalı");
    assert_eq!(PasteBackend::Ydotool.label(), "ydotool");
    assert_eq!(PasteBackend::X11.label(), "X11");
    assert_eq!(PasteBackend::Clipboard.label(), "yalnızca pano");
}

fn finished(a: PasteAction) -> PasteResult {
    match a {
        PasteAction::Finish(r) => r,
        other => panic!("not finished: {other:?}"),
    }
}

#[test]
fn paste_chain_order() {
    assert!(matches!(paste_next(PasteEvent::Start), PasteAction::TryPortal));
    assert!(matches!(paste_next(PasteEvent::PortalDone { sent: false }), PasteAction::TryYdotool));
    assert!(matches!(paste_next(PasteEvent::YdotoolFailed), PasteAction::TryX11));
    assert!(matches!(
        paste_next(PasteEvent::YdotoolExited { success: false, code: Some(1) }),
        PasteAction::TryX11
    ));
    assert!(matches!(paste_next(PasteEvent::X11Done { sent: false }), PasteAction::WriteClipboard));
    let r = finished(paste_next(PasteEvent::PortalDone { sent: true }));
    assert_eq!((r.backend, r.clipboard_written, r.ctrl_v_sent), (PasteBackend::Portal, false, true));
    assert_eq!(r.message, "RemoteDesktop portalı ile Ctrl+V gönderildi");
    let r = finished(paste_next(PasteEvent::YdotoolExited { success: true, code: Some(0) }));
    assert_eq!((r.backend, r.clipboard_written, r.ctrl_v_sent), (PasteBackend::Ydotool, true, true));
}

#[test]
fn x11_is_tried_third() {
    let r = finished(paste_next(PasteEvent::X11Done { sent: true }));
    assert_eq!((r.backend, r.clipboard_written, r.ctrl_v_sent), (PasteBackend::X11, false, true));
    assert_eq!(r.message, "X11 ile Ctrl+V gönderildi (doğrudan enjeksiyon)");
    let mut events = vec![
        PasteEvent::PortalDone { sent: false },
        PasteEvent::YdotoolFailed,
        PasteEvent::X11Done { sent: true },
    ]
    .into_iter();
    let mut action = paste_next(PasteEvent::Start);
    let mut steps = 0;
    let result = loop {
        match action {
            PasteAction::Finish(r) => break r,
            _ => {
                steps += 1;
                action = paste_next(events.next().expect("one event per step"));
            }
        }
    };
    assert_eq!(steps, 3);
    assert_eq!(result.backend, PasteBackend::X11);
}

#[test]
fn clipboard_fallback_always_finishes() {
    let r = finished(paste_next(PasteEvent::ClipboardDone { wrote: true, clipboard: ClipboardImpl::WlCopy }));
    assert_eq!((r.backend, r.clipboard_written, r.ctrl_v_sent), (PasteBackend::Clipboard, true, false));
    assert_eq!(r.message, "Metin panoda; Ctrl+V ile yapıştır (pano: wl-copy)");
    let r = finished(paste_next(PasteEvent::ClipboardDone { wrote: false, clipboard: ClipboardImpl::NoHelper }));
    assert_eq!((r.backend, r.clipboard_written, r.ctrl_v_sent), (PasteBackend::Clipboard, false, false));
    assert_eq!(r.message, "Pano yazılamadı — §11 'Sistem Sağlığı'na bakın");
}

#[test]
fn ydotool_outcomes() {
    let ok = ydotool_result(true, Some(0)).unwrap();
    assert_eq!(ok.message, "ydotool Ctrl+V gönderildi (uinput erişilebilir)");
    assert_eq!(ydotool_result(false, Some(1)).unwrap_err(), "ydotool exit kodu: Some(1)");
    assert_eq!(ydotool_result(false, None).unwrap_err(), "ydotool exit kodu: None");
    assert!(ydotool_ready(true, true));
    assert!(!ydotool_ready(true, false));
    assert!(!ydotool_ready(false, true));
}

#[test]
fn chord_and_session_probes() {
    assert_eq!(ctrl_v_chord(), vec![(29, true), (47, true), (47, false), (29, false)]);
    assert!(x11_session(Some(":0")));
    assert!(!x11_session(Some("  ")));
    assert!(!x11_session(Some("")));
    assert!(!x11_session(None));
    assert!(!x11_session(Some("\u{3000}\u{85}\u{a0}")));
    assert!(x11_session(Some(" :1 ")));
}

#[test]
fn paste_result_keeps_fields() {
    let r = PasteResult::new(PasteBackend::X11, true, false, "m".to_string());
    assert_eq!((r.backend, r.clipboard_written, r.ctrl_v_sent, r.message.as_str()), (PasteBackend::X11, true, false, "m"));
}

#[test]
fn ydotool_arguments() {
    assert_eq!(ydotool_key_args(), vec!["key", "29:1", "47:1", "47:0", "29:0"]);
}
