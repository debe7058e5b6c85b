use file_store::error::ErrorKind;
use file_store::store::{begin_put, plan_upload};
use file_store::types::FileInput;

const PNG: [u8; 12] = [0x89, 0x50, 0x4e, 0x47, 0x0d, 0x0a, 0x1a, 0x0a, 0, 0, 0, 0x0d];

fn input(bytes: &[u8]) -> FileInput {
    FileInput { name: "pic".to_string(), bytes: bytes.to_vec(), owner: "ann".to_string() }
}

#[test]
fn begin_put_classifies_a_png() {
    let upload = begin_put(input(&PNG)).unwrap();
    assert_eq!(upload.mime(), "image/png");
    assert_eq!(upload.name(), "pic");
    assert_eq!(upload.owner(), "ann");
    assert_eq!(upload.bytes(), &PNG[..]);
}

#[test]
fn begin_put_classifies_a_jpeg() {
    let upload = begin_put(input(&[0xff, 0xd8, 0xff, 0xaa])).unwrap();
    assert_eq!(upload.mime(), "image/jpeg");
    assert_eq!(upload.bytes(), &[0xff, 0xd8, 0xff, 0xaa][..]);
}

#[test]
fn begin_put_classifies_a_pdf_and_html() {
    assert_eq!(begin_put(input(b"%PDF-1.4\n")).unwrap().mime(), "application/pdf");
    assert_eq!(begin_put(input(b"<html><body>hello</body></html>")).unwrap().mime(), "text/html");
}

#[test]
fn begin_put_goes_by_the_content_not_the_name() {
    let named = FileInput { name: "photo.jpg".to_string(), bytes: PNG.to_vec(), owner: String::new() };
    assert_eq!(begin_put(named).unwrap().mime(), "image/png");
}

#[test]
fn begin_put_refuses_empty_content() {
    let e = begin_put(input(&[])).unwrap_err();
    assert_eq!(e.kind(), ErrorKind::UnknownFileType);
    assert_eq!(e.message(), "unknown file type");
}

#[test]
fn begin_put_refuses_plain_words() {
    let e = begin_put(input(b"hello world")).unwrap_err();
    assert_eq!(e.kind(), ErrorKind::UnknownFileType);
    assert_eq!(e.to_text(), "unknown file type");
}

#[test]
fn plan_upload_with_a_type_keeps_the_input() {
    let upload = plan_upload(
        FileInput { name: "test.txt".to_string(), bytes: b"hello world".to_vec(), owner: "alice".to_string() },
        Some("text/plain".to_string()),
    )
    .unwrap();
    assert_eq!(upload.name(), "test.txt");
    assert_eq!(upload.owner(), "alice");
    assert_eq!(upload.mime(), "text/plain");
    assert_eq!(upload.bytes(), &b"hello world"[..]);
}

#[test]
fn plan_upload_without_a_type_fails() {
    let e = plan_upload(input(&PNG), None).unwrap_err();
    assert_eq!(e.kind(), ErrorKind::UnknownFileType);
    assert_eq!(e.message(), "unknown file type");
    assert_eq!(e.status_code(), 500);
}
