use rustclipsync::clipboard::arboard_backend::{ArboardBackend, ArboardStep, ArboardWrite};
use rustclipsync::clipboard::windows::{
    dib_payload, watcher_step, WatcherEvent, WatcherStep, WindowsBackend, WindowsStep,
    WindowsWrite, DIB_FORMAT,
};
use rustclipsync::clipboard::x11::{
    target_read, target_written, wait_step, TargetRead, TargetWriteError, WaitStep, X11Backend,
    X11Error, X11Step, IMAGE_TARGET, TEXT_TARGET, XCLIP_POLL_MS, XCLIP_TIMEOUT_SECS,
};
use rustclipsync::clipboard::{
    canonical_image_hash_from_png, canonical_image_hash_from_rgba,
    clipboard_text_looks_like_png_bytes, mark_current_text_seen, rgba_to_png, select_backend_name,
    ClipboardItem, ImageFailure, PollingWatcher, RawImage,
};
use rustclipsync::security::calculate_bytes_hash;

const RED: [u8; 4] = [255, 0, 0, 255];
const BLUE: [u8; 4] = [0, 0, 255, 128];

fn pixels(pixel: [u8; 4], count: usize) -> Vec<u8> {
    pixel.repeat(count)
}

fn raw(pixel: [u8; 4]) -> RawImage {
    RawImage {
        width: 2,
        height: 2,
        bytes: pixels(pixel, 4),
    }
}

fn png(pixel: [u8; 4]) -> Vec<u8> {
    rgba_to_png(2, 2, &pixels(pixel, 4)).unwrap()
}

fn text_of(item: Option<ClipboardItem>) -> Option<String> {
    match item {
        Some(ClipboardItem::Text(text)) => Some(text),
        None => None,
        _ => panic!("not a text"),
    }
}

fn image_of(item: Option<ClipboardItem>) -> Option<Vec<u8>> {
    match item {
        Some(ClipboardItem::ImagePng(png)) => Some(png),
        None => None,
        _ => panic!("not an image"),
    }
}

#[test]
fn detects_png_bytes_exposed_as_text() {
    let text = String::from_utf8_lossy(b"\x89PNG\r\n\x1a\n").to_string();
    assert!(clipboard_text_looks_like_png_bytes(&text));
}

#[test]
fn stale_text_is_marked_seen_after_image_write() {
    let mut last_text = String::new();
    mark_current_text_seen(&mut last_text, Ok("stale text".to_string()));
    assert_eq!(last_text, "stale text");
}

#[test]
fn selects_x11_backend_for_x11_session() {
    let backend = select_backend_name(Some("x11"), false);
    assert_eq!(backend, "x11");
}

#[test]
fn selects_windows_backend_on_windows() {
    let backend = select_backend_name(Some("x11"), true);
    assert_eq!(backend, "windows");
}

#[test]
fn falls_back_to_arboard_for_unknown_linux_session() {
    let backend = select_backend_name(Some("unknown"), false);
    assert_eq!(backend, "arboard");
}

#[test]
fn falls_back_to_arboard_without_a_session() {
    assert_eq!(select_backend_name(None, false), "arboard");
    assert_eq!(select_backend_name(None, true), "windows");
    assert_eq!(select_backend_name(Some("X11"), false), "arboard");
}

#[test]
fn png_bytes_exposed_as_text_are_not_emitted() {
    let png_text = String::from_utf8_lossy(b"\x89PNG\r\n\x1a\n").to_string();

    assert!(clipboard_text_looks_like_png_bytes(&png_text));

    let mut backend = X11Backend::new(true).unwrap();
    assert!(backend.text_read(Some(png(RED))).is_none());
    let mut backend = ArboardBackend::new();
    assert!(backend.text_read(Some(png_text)).is_none());
}

#[test]
fn ordinary_text_does_not_look_like_png() {
    for text in ["", "PNG", "\u{fffd}PNG", "x\u{fffd}PNG\r\n\u{1a}\n", "hello"] {
        assert!(!clipboard_text_looks_like_png_bytes(text));
    }
    assert!(clipboard_text_looks_like_png_bytes(
        "\u{fffd}PNG\r\n\u{1a}\n\0\0"
    ));
}

#[test]
fn unreadable_text_leaves_the_last_one() {
    let mut last_text = "before".to_string();
    mark_current_text_seen(&mut last_text, Err(arboard::Error::ContentNotAvailable));
    assert_eq!(last_text, "before");
}

#[test]
fn polling_interval_is_configurable() {
    assert_eq!(PollingWatcher::new().interval_ms(), 300);
    assert_eq!(PollingWatcher::with_interval(1000).interval_ms(), 1000);
}

#[test]
fn png_files_carry_the_signature() {
    assert!(png(RED).starts_with(b"\x89PNG\r\n\x1a\n"));
    assert_ne!(png(RED), png(BLUE));
}

#[test]
fn images_that_do_not_fit_are_invalid() {
    assert_eq!(
        rgba_to_png(2, 2, &pixels(RED, 3)),
        Err(ImageFailure::InvalidDimensions)
    );
    assert_eq!(
        canonical_image_hash_from_rgba(2, 2, &pixels(RED, 3)),
        Err(ImageFailure::InvalidDimensions)
    );
    assert_eq!(rgba_to_png(2, 2, &pixels(RED, 5)), Ok(png(RED)));
}

#[test]
fn images_without_pixels_cannot_be_encoded() {
    assert_eq!(rgba_to_png(0, 0, &[]), Err(ImageFailure::Encoding));
}

#[test]
fn files_that_are_no_images_cannot_be_decoded() {
    assert_eq!(
        canonical_image_hash_from_png(b"no image"),
        Err(ImageFailure::Decoding)
    );
}

#[test]
fn canonical_hash_is_that_of_the_pixels() {
    let file = png(RED);
    let hash = canonical_image_hash_from_rgba(2, 2, &pixels(RED, 4)).unwrap();
    assert_eq!(hash, calculate_bytes_hash(&file));
    assert_eq!(canonical_image_hash_from_png(&file).unwrap(), hash);
    assert_ne!(canonical_image_hash_from_png(&png(BLUE)).unwrap(), hash);
}

#[test]
fn dimensions_count_for_the_hash() {
    let px = [0u8; 8];
    let tall = canonical_image_hash_from_rgba(1, 2, &px).unwrap();
    let wide = canonical_image_hash_from_rgba(2, 1, &px).unwrap();
    assert_ne!(tall, wide);
    assert_ne!(rgba_to_png(1, 2, &px), rgba_to_png(2, 1, &px));
    for hash in [tall, wide] {
        assert_eq!(hash.len(), 64);
        assert!(hash
            .chars()
            .all(|c| c.is_ascii_digit() || ('a'..='f').contains(&c)));
    }
    assert!(canonical_image_hash_from_rgba(2, 2, &px).is_err());
}

#[test]
fn x11_hands_out_an_unchanged_clipboard_once() {
    let mut backend = X11Backend::new(true).unwrap();
    let mut snapshot =
        || backend.read_snapshot(Some(b"image".to_vec()), Some(b"text\xff".to_vec()));
    assert_eq!(image_of(snapshot()), Some(b"image".to_vec()));
    assert_eq!(text_of(snapshot()), Some("text\u{fffd}".to_string()));
    for _ in 0..3 {
        assert!(snapshot().is_none());
    }
}

#[test]
fn x11_needs_xclip() {
    assert_eq!(X11Backend::new(false).err(), Some(X11Error::XclipMissing));
    assert_eq!(X11Backend::new(true).unwrap().name(), "x11");
}

#[test]
fn x11_hands_out_images_before_texts() {
    let mut backend = X11Backend::new(true).unwrap();
    assert!(matches!(
        backend.image_read(Some(b"first".to_vec())),
        X11Step::Done(ClipboardItem::ImagePng(image)) if image == b"first"
    ));
    assert!(matches!(
        backend.image_read(Some(b"first".to_vec())),
        X11Step::ReadText
    ));
    assert!(matches!(
        backend.image_read(Some(b"second".to_vec())),
        X11Step::Done(_)
    ));
    assert!(matches!(backend.image_read(None), X11Step::ReadText));
}

#[test]
fn x11_hands_out_new_texts_only() {
    let mut backend = X11Backend::new(true).unwrap();
    let text = |text: &str| Some(text.as_bytes().to_vec());
    assert_eq!(
        text_of(backend.text_read(text("one"))),
        Some("one".to_string())
    );
    assert_eq!(text_of(backend.text_read(text("one"))), None);
    assert_eq!(text_of(backend.text_read(None)), None);
    assert_eq!(
        text_of(backend.text_read(text("two"))),
        Some("two".to_string())
    );
    assert_eq!(
        text_of(backend.text_read(text("one"))),
        Some("one".to_string())
    );
}

#[test]
fn x11_reads_broken_text_with_replacements() {
    let mut backend = X11Backend::new(true).unwrap();
    assert_eq!(
        text_of(backend.text_read(Some(b"a\xffb".to_vec()))),
        Some("a\u{fffd}b".to_string())
    );
}

#[test]
fn x11_writes_under_the_target_of_the_kind() {
    let request = X11Backend::write_request(ClipboardItem::Text("\u{e9}".to_string())).unwrap();
    assert_eq!(request.target, TEXT_TARGET);
    assert_eq!(request.target, "text/plain");
    assert_eq!(request.bytes, "\u{e9}".as_bytes());
    let request = X11Backend::write_request(ClipboardItem::ImagePng(b"png".to_vec())).unwrap();
    assert_eq!(request.target, IMAGE_TARGET);
    assert_eq!(request.target, "image/png");
    assert_eq!(request.bytes, b"png");
    assert!(X11Backend::write_request(ClipboardItem::FilePath(b"/a".to_vec())).is_none());
}

#[test]
fn empty_or_failed_targets_hold_nothing() {
    assert!(matches!(
        target_read(Some(true), b"x".to_vec()),
        TargetRead::Contents(bytes) if bytes == b"x"
    ));
    assert!(matches!(
        target_read(Some(true), Vec::new()),
        TargetRead::Nothing
    ));
    assert!(matches!(
        target_read(Some(false), b"x".to_vec()),
        TargetRead::Nothing
    ));
    assert!(matches!(
        target_read(None, b"x".to_vec()),
        TargetRead::TimedOut
    ));
}

#[test]
fn failed_writes_are_told_apart() {
    assert_eq!(target_written(Some(true)), Ok(()));
    assert_eq!(target_written(Some(false)), Err(TargetWriteError::Failed));
    assert_eq!(target_written(None), Err(TargetWriteError::TimedOut));
}

#[test]
fn hung_children_are_killed_at_the_timeout() {
    assert_eq!(XCLIP_TIMEOUT_SECS, 5);
    assert_eq!(XCLIP_POLL_MS, 25);
    assert_eq!(wait_step(false, 199, 200), WaitStep::Sleep);
    assert_eq!(wait_step(false, 200, 200), WaitStep::Kill);
    assert_eq!(wait_step(true, 500, 200), WaitStep::Exited);
}

#[test]
fn arboard_hands_out_images_as_png() {
    let mut backend = ArboardBackend::new();
    assert_eq!(backend.name(), "arboard");
    assert!(matches!(
        backend.image_read(Some(raw(RED))),
        Ok(ArboardStep::Done(ClipboardItem::ImagePng(image))) if image == png(RED)
    ));
    assert!(matches!(
        backend.image_read(Some(raw(RED))),
        Ok(ArboardStep::ReadText)
    ));
    assert!(matches!(backend.image_read(None), Ok(ArboardStep::ReadText)));
    assert!(matches!(
        backend.image_read(Some(raw(BLUE))),
        Ok(ArboardStep::Done(_))
    ));
    let broken = RawImage {
        width: 3,
        height: 2,
        bytes: pixels(RED, 4),
    };
    assert_eq!(
        backend.image_read(Some(broken)).err(),
        Some(ImageFailure::InvalidDimensions)
    );
}

#[test]
fn arboard_writes_pixels() {
    let item = ClipboardItem::ImagePng(png(BLUE));
    match ArboardBackend::write_request(&item) {
        Ok(ArboardWrite::Image(image)) => {
            assert_eq!((image.width, image.height), (2, 2));
            assert_eq!(image.bytes, pixels(BLUE, 4));
        }
        _ => panic!("not an image"),
    }
    assert!(matches!(
        ArboardBackend::write_request(&ClipboardItem::Text("hello".to_string())),
        Ok(ArboardWrite::Text(text)) if text == "hello"
    ));
    assert!(matches!(
        ArboardBackend::write_request(&ClipboardItem::FilePath(b"/a".to_vec())),
        Ok(ArboardWrite::Nothing)
    ));
    assert_eq!(
        ArboardBackend::write_request(&ClipboardItem::ImagePng(b"no image".to_vec())).err(),
        Some(ImageFailure::Decoding)
    );
}

#[test]
fn arboard_does_not_take_a_written_image_for_news() {
    let mut backend = ArboardBackend::new();
    backend.note_image_written(&png(RED)).unwrap();
    backend.note_current_text(Ok("stale text".to_string()));
    assert!(matches!(
        backend.image_read(Some(raw(RED))),
        Ok(ArboardStep::ReadText)
    ));
    assert_eq!(
        text_of(backend.text_read(Some("stale text".to_string()))),
        None
    );
    assert_eq!(
        text_of(backend.text_read(Some("fresh text".to_string()))),
        Some("fresh text".to_string())
    );
    assert_eq!(
        backend.note_image_written(b"no image"),
        Err(ImageFailure::Decoding)
    );
}

#[test]
fn backend_name_is_windows() {
    let backend = WindowsBackend::new();
    assert_eq!(backend.name(), "windows");
}

#[test]
fn test_png_clipboard_roundtrip() {
    let mut backend = WindowsBackend::new();
    // Construct a small 2x2 red PNG
    let image = image::RgbaImage::from_fn(2, 2, |_, _| image::Rgba([255, 0, 0, 255]));
    let mut png_bytes = std::io::Cursor::new(Vec::new());
    image
        .write_to(&mut png_bytes, image::ImageFormat::Png)
        .unwrap();
    let png_bytes = png_bytes.into_inner();

    // The bitmap that goes onto the clipboard holds the pixels
    let item = ClipboardItem::ImagePng(png_bytes.clone());
    match WindowsBackend::write_request(&item) {
        Ok(WindowsWrite::Image { dib }) => {
            assert_eq!(dib[40..], [0, 0, 255, 255].repeat(4));
        }
        _ => panic!("Expected ImagePng"),
    }

    // A backend that has not noted the image reads it back
    match backend.png_read(Some(png_bytes)) {
        WindowsStep::Done(Some(ClipboardItem::ImagePng(retrieved_bytes))) => {
            let decoded = image::load_from_memory(&retrieved_bytes)
                .unwrap()
                .to_rgba8();
            assert_eq!(decoded.width(), 2);
            assert_eq!(decoded.height(), 2);
            assert_eq!(decoded.get_pixel(0, 0).0, [255, 0, 0, 255]);
        }
        _ => panic!("Expected ImagePng"),
    }
}

#[test]
fn windows_hands_out_copied_files_in_order() {
    let mut backend = WindowsBackend::new();
    let files = || Some(vec![b"C:\\a".to_vec(), b"C:\\b".to_vec(), b"C:\\c".to_vec()]);
    assert_eq!(backend.name(), "windows");
    assert!(matches!(backend.begin_snapshot(), WindowsStep::ReadText));
    assert!(matches!(backend.text_read(None), WindowsStep::ReadFiles));
    assert!(matches!(
        backend.files_read(files()),
        WindowsStep::Done(Some(ClipboardItem::FilePath(path))) if path == b"C:\\a"
    ));
    for expected in [b"C:\\b", b"C:\\c"] {
        assert!(matches!(
            backend.begin_snapshot(),
            WindowsStep::Done(Some(ClipboardItem::FilePath(path))) if path == expected
        ));
    }
    assert!(matches!(backend.begin_snapshot(), WindowsStep::ReadText));
    assert!(matches!(backend.files_read(files()), WindowsStep::ReadPng));
    assert!(matches!(
        backend.files_read(Some(Vec::new())),
        WindowsStep::ReadPng
    ));
    assert!(matches!(backend.files_read(None), WindowsStep::ReadPng));
    assert!(matches!(
        backend.files_read(Some(vec![b"C:\\a".to_vec()])),
        WindowsStep::Done(Some(_))
    ));
}

#[test]
fn windows_hands_out_an_unchanged_file_list_once() {
    let mut backend = WindowsBackend::new();
    let files = || Some(vec![b"a".to_vec(), b"b".to_vec()]);
    let mut snapshot = || {
        backend
            .read_snapshot(Some(String::new()), files(), None, None)
            .unwrap()
    };
    for expected in [b"a", b"b"] {
        assert!(matches!(
            snapshot(),
            Some(ClipboardItem::FilePath(path)) if path == expected
        ));
    }
    for _ in 0..3 {
        assert!(snapshot().is_none());
    }
}

#[test]
fn windows_looks_at_the_formats_in_turn() {
    let mut backend = WindowsBackend::new();
    let broken = || {
        Some(RawImage {
            width: 3,
            height: 2,
            bytes: pixels(RED, 4),
        })
    };
    let text = || Some("text".to_string());
    let files = || Some(vec![b"a".to_vec()]);
    let mut snapshot = |image| backend.read_snapshot(text(), files(), Some(png(RED)), image);
    assert_eq!(
        text_of(snapshot(broken()).unwrap()),
        Some("text".to_string())
    );
    assert!(matches!(
        snapshot(broken()),
        Ok(Some(ClipboardItem::FilePath(path))) if path == b"a"
    ));
    assert_eq!(image_of(snapshot(broken()).unwrap()), Some(png(RED)));
    assert!(snapshot(broken()).unwrap().is_none());
    assert_eq!(
        backend
            .read_snapshot(text(), files(), None, broken())
            .err(),
        Some(ImageFailure::InvalidDimensions)
    );
    let blue = backend.read_snapshot(text(), files(), None, Some(raw(BLUE)));
    assert_eq!(image_of(blue.unwrap()), Some(png(BLUE)));
}

#[test]
fn arboard_hands_out_an_unchanged_clipboard_once() {
    let mut backend = ArboardBackend::new();
    let mut snapshot = || {
        backend
            .read_snapshot(Some(raw(RED)), Some("text".to_string()))
            .unwrap()
    };
    assert_eq!(image_of(snapshot()), Some(png(RED)));
    assert_eq!(text_of(snapshot()), Some("text".to_string()));
    assert!(snapshot().is_none());
    let broken = RawImage {
        width: 3,
        height: 2,
        bytes: pixels(RED, 4),
    };
    assert_eq!(
        backend
            .read_snapshot(Some(broken), Some("other".to_string()))
            .err(),
        Some(ImageFailure::InvalidDimensions)
    );
}

#[test]
fn windows_hands_out_new_texts_first() {
    let mut backend = WindowsBackend::new();
    assert!(matches!(
        backend.text_read(Some("one".to_string())),
        WindowsStep::Done(Some(ClipboardItem::Text(text))) if text == "one"
    ));
    assert!(matches!(
        backend.text_read(Some("one".to_string())),
        WindowsStep::ReadFiles
    ));
}

#[test]
fn windows_prefers_the_png_format() {
    let mut backend = WindowsBackend::new();
    assert!(matches!(backend.png_read(None), WindowsStep::ReadImage));
    assert!(matches!(
        backend.png_read(Some(Vec::new())),
        WindowsStep::ReadImage
    ));
    assert!(matches!(
        backend.png_read(Some(b"no image".to_vec())),
        WindowsStep::ReadImage
    ));
    assert!(matches!(
        backend.png_read(Some(png(RED))),
        WindowsStep::Done(Some(ClipboardItem::ImagePng(image))) if image == png(RED)
    ));
    assert!(matches!(
        backend.png_read(Some(png(RED))),
        WindowsStep::Done(None)
    ));
    assert_eq!(image_of(backend.image_read(Some(raw(RED))).unwrap()), None);
    assert_eq!(image_of(backend.image_read(None).unwrap()), None);
    assert_eq!(
        image_of(backend.image_read(Some(raw(BLUE))).unwrap()),
        Some(png(BLUE))
    );
}

#[test]
fn windows_does_not_take_a_written_image_for_news() {
    let mut backend = WindowsBackend::new();
    backend.note_image_written(&png(RED)).unwrap();
    backend.note_current_text(Ok("stale text".to_string()));
    assert!(matches!(
        backend.text_read(Some("stale text".to_string())),
        WindowsStep::ReadFiles
    ));
    assert!(matches!(
        backend.png_read(Some(png(RED))),
        WindowsStep::Done(None)
    ));
}

#[test]
fn windows_writes_png_and_bitmap() {
    let item = ClipboardItem::ImagePng(png(BLUE));
    match WindowsBackend::write_request(&item) {
        Ok(WindowsWrite::Image { dib }) => assert_eq!(dib, dib_payload(2, 2, pixels(BLUE, 4))),
        _ => panic!("not an image"),
    }
    assert!(matches!(
        WindowsBackend::write_request(&ClipboardItem::Text("hello".to_string())),
        Ok(WindowsWrite::Text(text)) if text == "hello"
    ));
    assert!(matches!(
        WindowsBackend::write_request(&ClipboardItem::FilePath(b"C:\\a".to_vec())),
        Ok(WindowsWrite::Nothing)
    ));
    assert_eq!(
        WindowsBackend::write_request(&ClipboardItem::ImagePng(Vec::new())).err(),
        Some(ImageFailure::Decoding)
    );
}

#[test]
fn bitmaps_run_from_the_top_in_bgra() {
    assert_eq!(DIB_FORMAT, 8);
    let dib = dib_payload(1, 2, vec![1, 2, 3, 4, 5, 6, 7, 8]);
    let mut expected = Vec::new();
    expected.extend_from_slice(&40u32.to_le_bytes());
    expected.extend_from_slice(&1i32.to_le_bytes());
    expected.extend_from_slice(&(-2i32).to_le_bytes());
    expected.extend_from_slice(&1u16.to_le_bytes());
    expected.extend_from_slice(&32u16.to_le_bytes());
    expected.extend_from_slice(&0u32.to_le_bytes());
    expected.extend_from_slice(&8u32.to_le_bytes());
    expected.extend_from_slice(&[0; 16]);
    expected.extend_from_slice(&[3, 2, 1, 4, 7, 6, 5, 8]);
    assert_eq!(dib, expected);
    assert_eq!(dib_payload(0, 0, Vec::new()).len(), 40);
}

#[test]
fn swapping_red_and_blue_twice_changes_nothing() {
    let pixels: Vec<u8> = (0..16).collect();
    let swapped = dib_payload(2, 2, pixels.clone())[40..].to_vec();
    assert_ne!(swapped, pixels);
    assert_eq!(dib_payload(2, 2, swapped)[40..], pixels);
}

#[test]
fn the_listening_window_reports_updates_until_nobody_listens() {
    for (event, step) in [
        (
            WatcherEvent::WindowCreated { created: true },
            WatcherStep::AddListener,
        ),
        (
            WatcherEvent::WindowCreated { created: false },
            WatcherStep::ReportNoWindow,
        ),
        (
            WatcherEvent::ListenerAdded { added: true },
            WatcherStep::GetMessage,
        ),
        (
            WatcherEvent::ListenerAdded { added: false },
            WatcherStep::ReportNoListener,
        ),
        (
            WatcherEvent::Message {
                clipboard_update: true,
            },
            WatcherStep::Notify,
        ),
        (
            WatcherEvent::Message {
                clipboard_update: false,
            },
            WatcherStep::Dispatch,
        ),
        (
            WatcherEvent::Notified { received: true },
            WatcherStep::Dispatch,
        ),
        (
            WatcherEvent::Notified { received: false },
            WatcherStep::CleanUp,
        ),
        (WatcherEvent::Dispatched, WatcherStep::GetMessage),
        (WatcherEvent::Quit, WatcherStep::CleanUp),
    ] {
        assert_eq!(watcher_step(event), step);
    }
}
