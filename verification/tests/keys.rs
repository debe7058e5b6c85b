use file_store::error::ErrorKind;
use file_store::key::BlobId;

const SAMPLE: [u8; 12] = [0x63, 0x5b, 0xdd, 0x28, 0x93, 0x95, 0xef, 0x00, 0x4c, 0x77, 0x62, 0x91];

#[test]
fn key_of_an_identifier_is_lower_case_hex() {
    let id = BlobId { bytes: SAMPLE };
    assert_eq!(id.to_key(), "635bdd289395ef004c776291");
}

#[test]
fn key_of_zeroes_and_of_high_bytes() {
    assert_eq!(BlobId { bytes: [0; 12] }.to_key(), "000000000000000000000000");
    assert_eq!(BlobId { bytes: [0xff; 12] }.to_key(), "ffffffffffffffffffffffff");
    assert_eq!(
        BlobId { bytes: [0x0a, 0xa0, 0x09, 0x90, 0x1f, 0xf1, 0, 1, 2, 3, 4, 5] }.to_key(),
        "0aa009901ff1000102030405"
    );
}

#[test]
fn parse_reads_each_pair_of_digits_as_a_byte() {
    let id = BlobId::parse("635bdd289395ef004c776291").unwrap();
    assert_eq!(id.bytes, SAMPLE);
}

#[test]
fn parse_takes_upper_and_mixed_case() {
    let upper = BlobId::parse("635BDD289395EF004C776291").unwrap();
    assert_eq!(upper.bytes, SAMPLE);
    let mixed = BlobId::parse("635bDD289395eF004c776291").unwrap();
    assert_eq!(mixed.bytes, SAMPLE);
}

#[test]
fn parse_then_render_gives_the_lower_case_key() {
    let id = BlobId::parse("ABCDEF0123456789abcdef01").unwrap();
    assert_eq!(id.to_key(), "abcdef0123456789abcdef01");
}

#[test]
fn render_then_parse_gives_the_identifier_back() {
    let bytes = [1, 2, 3, 4, 5, 6, 7, 8, 9, 10, 11, 250];
    let key = BlobId { bytes }.to_key();
    assert_eq!(key.len(), 24);
    assert_eq!(BlobId::parse(&key).unwrap().bytes, bytes);
}

#[test]
fn parse_refuses_a_wrong_length() {
    for key in ["", "6", "635bdd289395ef004c77629", "635bdd289395ef004c7762911", "635bdd289395ef004c77629100"] {
        let e = BlobId::parse(key).unwrap_err();
        assert_eq!(e.kind(), ErrorKind::InvalidKey);
        assert!(!e.message().is_empty());
    }
}

#[test]
fn parse_refuses_what_is_no_hex_digit() {
    for key in [
        "635bdd289395ef004c77629g",
        "635bdd289395ef004c77629G",
        "635bdd289395ef004c77629 ",
        "xyzxyzxyzxyzxyzxyzxyzxyz",
        "635bdd28-395ef004c776291",
    ] {
        assert_eq!(key.len(), 24);
        assert_eq!(BlobId::parse(key).unwrap_err().kind(), ErrorKind::InvalidKey);
    }
}

#[test]
fn parse_refuses_text_that_is_not_ascii() {
    // 24 characters, more than 24 bytes
    let wide = "635bdd289395ef004c77629é";
    assert_eq!(wide.chars().count(), 24);
    assert_eq!(BlobId::parse(wide).unwrap_err().kind(), ErrorKind::InvalidKey);
    // 24 bytes, fewer than 24 characters
    let packed = "635bdd289395ef004c7762é";
    assert_eq!(packed.len(), 24);
    assert_eq!(BlobId::parse(packed).unwrap_err().kind(), ErrorKind::InvalidKey);
}
