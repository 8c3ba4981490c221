use rustclipsync::protocol::PayloadKind;

#[test]
fn kinds_have_their_wire_names() {
    assert_eq!(PayloadKind::Text.as_str(), "text");
    assert_eq!(PayloadKind::ImagePng.as_str(), "image_png");
    assert_eq!(PayloadKind::File.as_str(), "file");
}
