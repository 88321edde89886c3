use mirilti::output::clipboard::{
    capture_result, clipboard_text, detect_clipboard, status_result, ClipboardImpl, SystemClipboard,
};

#[test]
fn detect_never_panics_and_yields_exhaustive_variant() {
    for wl in [false, true] {
        for x in [false, true] {
            let hmm = detect_clipboard(wl, x);
            match hmm {
                ClipboardImpl::NoHelper | ClipboardImpl::WlCopy | ClipboardImpl::XClip => {}
            }
            assert!(!hmm.label().is_empty());
        }
    }
}

#[test]
fn write_with_none_backend_is_graceful_err() {
    let c = SystemClipboard::with_backend(ClipboardImpl::NoHelper);
    assert!(c.write_command().is_err());
    assert!(c.read_command().is_err());
}

#[test]
fn detection_prefers_wl_copy_then_xclip() {
    assert_eq!(detect_clipboard(true, true), ClipboardImpl::WlCopy);
    assert_eq!(detect_clipboard(true, false), ClipboardImpl::WlCopy);
    assert_eq!(detect_clipboard(false, true), ClipboardImpl::XClip);
    assert_eq!(detect_clipboard(false, false), ClipboardImpl::NoHelper);
    assert_eq!(SystemClipboard::new(false, true).backend(), ClipboardImpl::XClip);
}

#[test]
fn labels_name_the_helpers() {
    assert_eq!(ClipboardImpl::NoHelper.label(), "yok");
    assert_eq!(ClipboardImpl::WlCopy.label(), "wl-copy");
    assert_eq!(ClipboardImpl::XClip.label(), "xclip");
}

#[test]
fn commands_per_helper() {
    let wl = SystemClipboard::with_backend(ClipboardImpl::WlCopy);
    let w = wl.write_command().unwrap();
    assert_eq!((w.program, w.args), ("wl-copy", vec![]));
    let r = wl.read_command().unwrap();
    assert_eq!((r.program, r.args), ("wl-paste", vec![]));
    let x = SystemClipboard::with_backend(ClipboardImpl::XClip);
    let w = x.write_command().unwrap();
    assert_eq!((w.program, w.args), ("xclip", vec!["-selection", "clipboard"]));
    let r = x.read_command().unwrap();
    assert_eq!((r.program, r.args), ("xclip", vec!["-selection", "clipboard", "-o"]));
    let none = SystemClipboard::with_backend(ClipboardImpl::NoHelper);
    assert_eq!(
        none.write_command().unwrap_err(),
        "pano CLI yardımcısı bulunamadı (wl-copy/xclip). Kurulum için §11/a §8.1'e bakın."
    );
    assert_eq!(none.read_command().unwrap_err(), "pano CLI yardımcısı bulunamadı (wl-paste/xclip).");
}

#[test]
fn exit_status_reports() {
    assert_eq!(status_result("wl-copy", true, Some(0)), Ok(()));
    assert_eq!(status_result("wl-copy", false, Some(1)), Err("wl-copy exit Some(1)".to_string()));
    assert_eq!(status_result("xclip", false, None), Err("xclip exit None".to_string()));
    assert_eq!(status_result("xclip", false, Some(-3)), Err("xclip exit Some(-3)".to_string()));
}

#[test]
fn capture_reports_stderr_or_exit_code() {
    assert_eq!(capture_result("wl-paste", true, Some(0), b"abc".to_vec(), ""), Ok(b"abc".to_vec()));
    assert_eq!(
        capture_result("wl-paste", false, Some(1), Vec::new(), "No selection\n"),
        Err("wl-paste: No selection\n".to_string())
    );
    assert_eq!(
        capture_result("xclip", false, Some(2), Vec::new(), " \n\t"),
        Err("xclip: exit Some(2)".to_string())
    );
}

#[test]
fn clipboard_text_decodes_utf8() {
    assert_eq!(clipboard_text("merhaba dünya".as_bytes().to_vec()), Ok("merhaba dünya".to_string()));
    let err = clipboard_text(vec![0x66, 0xff, 0x67]).unwrap_err();
    assert!(err.starts_with("pano içeriği geçerli UTF-8 değil: "));
    assert!(err.len() > "pano içeriği geçerli UTF-8 değil: ".len());
}
