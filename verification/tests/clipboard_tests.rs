use rcopy::clipboard::{classify_xclip_failure, targets_failure, ClipboardError, ReadResult};
use rcopy::clipboard_read::{ReadStep, SupportedRead};
use rcopy::item::ClipboardPayload;
use rcopy::mime::{parse_target_list, select_single_write_mime};

/// What a fake `xclip -o` run gives: exit code, stdout, stderr.
struct Run {
    code: i32,
    stdout: Vec<u8>,
    stderr: &'static str,
}

fn ok(out: &[u8]) -> Run {
    Run { code: 0, stdout: out.to_vec(), stderr: "" }
}

fn exit(code: i32, stderr: &'static str) -> Run {
    Run { code, stdout: Vec::new(), stderr }
}

/// Reads the supported targets the way the daemon does, with `xclip`
/// answering `run(target)`.
fn read_supported(run: impl Fn(&str) -> Run) -> Result<ClipboardPayload, ClipboardError> {
    let targets = run("TARGETS");
    if targets.code != 0 {
        return Err(targets_failure(targets.stderr));
    }
    let offered = parse_target_list(&String::from_utf8_lossy(&targets.stdout));
    let (mut read, mut step) = SupportedRead::start(offered);
    loop {
        step = match step {
            ReadStep::Text(mime) => {
                let out = run(&mime);
                let text = if out.code != 0 {
                    match classify_xclip_failure::<String>(&mime, Some(out.code), out.stderr)? {
                        ReadResult::Available(text) => Some(text),
                        ReadResult::Unsupported => None,
                    }
                } else {
                    Some(String::from_utf8(out.stdout).unwrap())
                };
                read.text_read(text)
            }
            ReadStep::Bytes(mime) => {
                let out = run(&mime);
                let bytes = if out.code != 0 {
                    match classify_xclip_failure::<Vec<u8>>(&mime, Some(out.code), out.stderr)? {
                        ReadResult::Available(bytes) => Some(bytes),
                        ReadResult::Unsupported => None,
                    }
                } else {
                    Some(out.stdout)
                };
                read.bytes_read(bytes)
            }
            ReadStep::Done(payload) => return Ok(payload),
        };
    }
}

/// An `xclip` that lists `targets` and prints the entry for each target.
fn fixture(targets: &'static str, entries: &'static [(&'static str, &'static str)]) -> impl Fn(&str) -> Run {
    move |target: &str| {
        if target == "TARGETS" {
            return ok(targets.as_bytes());
        }
        match entries.iter().find(|(name, _)| *name == target) {
            Some((_, text)) => ok(text.as_bytes()),
            None => exit(1, ""),
        }
    }
}

#[test]
fn x11_clipboard_prefers_plain_text_over_html_when_both_are_available() {
    let payload = read_supported(|target| match target {
        "TARGETS" => ok(b"text/plain\ntext/html\nimage/png\n"),
        "text/plain" => ok(b"alpha"),
        "text/html" => ok(b"<b>alpha</b>"),
        "image/png" => ok(&[0o211, b'P', b'N', b'G']),
        _ => exit(1, ""),
    })
    .unwrap();

    assert_eq!(payload.text_plain.as_deref(), Some("alpha"));
    assert_eq!(payload.text_html, None);
    assert_eq!(payload.image_png.as_deref(), Some(&[137, 80, 78, 71][..]));
}

#[test]
fn x11_clipboard_reads_parameterized_plain_text_mime() {
    let payload = read_supported(fixture(
        "text/plain;charset=utf-8\ntext/html\n",
        &[
            ("text/plain;charset=utf-8", "plain alpha"),
            ("text/html", "<b>html alpha</b>"),
        ],
    ))
    .unwrap();

    assert_eq!(payload.text_plain.as_deref(), Some("plain alpha"));
    assert_eq!(payload.text_html, None);
    assert_eq!(payload.image_png, None);
}

#[test]
fn x11_clipboard_strips_html_document_from_plain_text_payload() {
    let payload = read_supported(fixture(
        "text/plain;charset=utf-8\n",
        &[(
            "text/plain;charset=utf-8",
            "<html><body><!--StartFragment--><pre><div><span>  現在 `Ctrl+`` 的行為是：</span></div></pre><!--EndFragment--></body></html>",
        )],
    ))
    .unwrap();

    assert_eq!(payload.text_plain.as_deref(), Some("現在 `Ctrl+`` 的行為是："));
    assert_eq!(payload.text_html, None);
}

#[test]
fn x11_clipboard_reads_html_when_plain_text_is_unavailable() {
    let payload = read_supported(fixture("text/html\n", &[("text/html", "<b>alpha</b>")])).unwrap();

    assert_eq!(payload.text_plain, None);
    assert_eq!(payload.text_html.as_deref(), Some("<b>alpha</b>"));
    assert_eq!(payload.image_png, None);
}

#[test]
fn x11_clipboard_read_leaves_unsupported_mimes_empty() {
    let payload = read_supported(fixture("text/plain\n", &[("text/plain", "alpha")])).unwrap();

    assert_eq!(payload.text_plain.as_deref(), Some("alpha"));
    assert_eq!(payload.text_html, None);
    assert_eq!(payload.image_png, None);
}

#[test]
fn x11_clipboard_read_returns_error_when_backend_fails_for_every_mime() {
    let error = read_supported(|_| exit(2, "x11 clipboard unavailable\n")).unwrap_err();

    assert!(matches!(error, ClipboardError::Command(_)));
}

#[test]
fn x11_clipboard_does_not_read_unoffered_image_mime() {
    let payload = read_supported(|target| match target {
        "TARGETS" => ok(b"text/plain\n"),
        "text/plain" => ok(b"alpha"),
        "image/png" => exit(9, "image/png should not be read\n"),
        _ => exit(1, ""),
    })
    .unwrap();

    assert_eq!(payload.text_plain.as_deref(), Some("alpha"));
    assert_eq!(payload.image_png, None);
}

fn written(payload: &ClipboardPayload) -> (String, Vec<u8>) {
    let selection = select_single_write_mime(payload).expect("something to write");
    (selection.mime().to_string(), selection.bytes().to_vec())
}

#[test]
fn x11_clipboard_write_prefers_plain_text_over_html_when_both_are_present() {
    let payload = ClipboardPayload {
        text_plain: Some("alpha".into()),
        text_html: Some("<b>alpha</b>".into()),
        image_png: None,
    };

    assert_eq!(written(&payload), ("text/plain".to_string(), b"alpha".to_vec()));
}

#[test]
fn x11_clipboard_write_uses_html_when_plain_text_is_absent() {
    let payload = ClipboardPayload {
        text_plain: None,
        text_html: Some("<b>alpha</b>".into()),
        image_png: None,
    };

    assert_eq!(written(&payload), ("text/html".to_string(), b"<b>alpha</b>".to_vec()));
}

#[test]
fn x11_clipboard_write_uses_plain_text_when_only_text_is_present() {
    let payload = ClipboardPayload {
        text_plain: Some("alpha".into()),
        text_html: None,
        image_png: None,
    };

    assert_eq!(written(&payload), ("text/plain".to_string(), b"alpha".to_vec()));
}

#[test]
fn x11_clipboard_write_strips_html_document_from_plain_text_payload() {
    let payload = ClipboardPayload {
        text_plain: Some(
            "<html><body><!--StartFragment--><span>現在 `Ctrl+`` 的行為是：</span></body></html>"
                .into(),
        ),
        text_html: None,
        image_png: None,
    };

    let (_, bytes) = written(&payload);
    assert_eq!(String::from_utf8(bytes).unwrap(), "現在 `Ctrl+`` 的行為是：");
}
