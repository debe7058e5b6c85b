use file_store::error::ErrorKind;
use file_store::handlers::{form_failure, get_status, read_form, FormField, FormReader};
use file_store::error::Error;
use file_store::types::{FileInput, PutResponse};

fn field(name: &str, chunks: &[&[u8]]) -> FormField {
    FormField { name: name.to_string(), chunks: chunks.iter().map(|c| c.to_vec()).collect() }
}

#[test]
fn empty_input_has_no_name_owner_or_bytes() {
    let input = FileInput::empty();
    assert_eq!(input.name, "");
    assert_eq!(input.owner, "");
    assert!(input.bytes.is_empty());
}

#[test]
fn a_form_without_fields_gives_the_empty_input() {
    let input = read_form(&vec![]).unwrap();
    assert_eq!(input.name, "");
    assert_eq!(input.owner, "");
    assert_eq!(input.bytes, Vec::<u8>::new());
    let input = FormReader::new().finish();
    assert_eq!(input.name, "");
    assert_eq!(input.owner, "");
    assert_eq!(input.bytes, Vec::<u8>::new());
}

#[test]
fn a_form_with_the_three_fields() {
    let form = vec![
        field("name", &[b"test.txt"]),
        field("owner", &[b"alice"]),
        field("bytes", &[b"hello world"]),
    ];
    let input = read_form(&form).unwrap();
    assert_eq!(input.name, "test.txt");
    assert_eq!(input.owner, "alice");
    assert_eq!(input.bytes, b"hello world".to_vec());
}

#[test]
fn absent_fields_stay_empty() {
    let input = read_form(&vec![field("bytes", &[&[1, 2, 3]])]).unwrap();
    assert_eq!(input.name, "");
    assert_eq!(input.owner, "");
    assert_eq!(input.bytes, vec![1, 2, 3]);
}

#[test]
fn chunks_are_joined_in_order() {
    let form = vec![
        field("bytes", &[b"hel", b"", b"lo ", b"world"]),
        field("name", &[b"te", b"st", b".txt"]),
    ];
    let input = read_form(&form).unwrap();
    assert_eq!(input.bytes, b"hello world".to_vec());
    assert_eq!(input.name, "test.txt");
}

#[test]
fn a_character_split_over_two_chunks_is_read_whole() {
    let text = "é".as_bytes();
    let form = vec![field("owner", &[&text[..1], &text[1..]])];
    assert_eq!(read_form(&form).unwrap().owner, "é");
}

#[test]
fn other_fields_are_ignored() {
    let form = vec![
        field("name", &[b"a"]),
        field("comment", &[&[0xff, 0xfe]]),
        field("Name", &[b"b"]),
        field("", &[b"c"]),
    ];
    let input = read_form(&form).unwrap();
    assert_eq!(input.name, "a");
    assert_eq!(input.owner, "");
    assert!(input.bytes.is_empty());
}

#[test]
fn of_two_fields_of_one_name_the_later_counts() {
    let form = vec![
        field("name", &[b"first"]),
        field("bytes", &[b"one"]),
        field("name", &[b"second"]),
        field("bytes", &[b"two"]),
    ];
    let input = read_form(&form).unwrap();
    assert_eq!(input.name, "second");
    assert_eq!(input.bytes, b"two".to_vec());
}

#[test]
fn a_name_that_is_not_utf8_fails_the_form() {
    let form = vec![field("owner", &[b"alice"]), field("name", &[&[0x66, 0xff, 0x6f]])];
    let e = read_form(&form).unwrap_err();
    assert_eq!(e.kind(), ErrorKind::DecodeError);
    assert!(!e.message().is_empty());
    assert_eq!(e.status_code(), 500);
}

#[test]
fn an_owner_that_is_not_utf8_fails_the_form() {
    let form = vec![field("owner", &[&[0xc3]]), field("name", &[b"late"])];
    assert_eq!(read_form(&form).unwrap_err().kind(), ErrorKind::DecodeError);
}

#[test]
fn bytes_need_not_be_utf8() {
    let input = read_form(&vec![field("bytes", &[&[0xff, 0x00, 0xc3]])]).unwrap();
    assert_eq!(input.bytes, vec![0xff, 0x00, 0xc3]);
}

#[test]
fn reader_gathers_and_starts_afresh() {
    let mut reader = FormReader::new();
    assert_eq!(reader.pending_len(), 0);
    reader.start_field();
    reader.push_chunk(b"ab");
    reader.push_chunk(b"cde");
    assert_eq!(reader.pending_len(), 5);
    reader.end_field("name").unwrap();
    reader.start_field();
    assert_eq!(reader.pending_len(), 0);
    reader.push_chunk(b"xyz");
    reader.end_field("bytes").unwrap();
    let input = reader.finish();
    assert_eq!(input.name, "abcde");
    assert_eq!(input.bytes, b"xyz".to_vec());
    assert_eq!(input.owner, "");
}

#[test]
fn a_refused_field_leaves_the_input_as_it_was() {
    let mut reader = FormReader::new();
    reader.start_field();
    reader.push_chunk(b"good");
    reader.end_field("name").unwrap();
    reader.start_field();
    reader.push_chunk(&[0x80]);
    let e = reader.end_field("name").unwrap_err();
    assert_eq!(e.kind(), ErrorKind::DecodeError);
    assert_eq!(reader.pending_len(), 1);
    let input = reader.finish();
    assert_eq!(input.name, "good");
}

#[test]
fn put_response_carries_the_key() {
    let response = PutResponse::new("635bdd289395ef004c776291".to_string());
    assert_eq!(response.id(), "635bdd289395ef004c776291");
}

#[test]
fn status_of_each_kind_of_error() {
    let kinds = [
        (ErrorKind::NotFound, 404),
        (ErrorKind::InvalidKey, 400),
        (ErrorKind::UnknownFileType, 500),
        (ErrorKind::DecodeError, 500),
        (ErrorKind::BackendError, 500),
    ];
    for (kind, on_get) in kinds {
        let e = Error::new(kind, "why".to_string());
        assert_eq!(e.kind(), kind);
        assert_eq!(e.message(), "why");
        assert_eq!(e.to_text(), "why");
        assert_eq!(get_status(&e), on_get);
        assert_eq!(e.status_code(), 500);
    }
}

#[test]
fn a_form_that_breaks_off_fails_as_undecodable() {
    let e = form_failure("Multipart stream is incomplete".to_string());
    assert_eq!(e.kind(), ErrorKind::DecodeError);
    assert_eq!(e.message(), "Multipart stream is incomplete");
    assert_eq!(e.status_code(), 500);
}
