use gphoto::text::camera_text_to_string;
use gphoto::ErrorKind;

#[test]
fn valid_text_converts_to_the_same_string() {
    let bytes = b"Manufacturer: Nikon Corporation".to_vec();
    let text = camera_text_to_string(bytes).unwrap();
    assert_eq!(text, "Manufacturer: Nikon Corporation");
}

#[test]
fn multibyte_text_converts_losslessly() {
    let bytes = "snowman \u{2603} and accents \u{e9}\u{e8}".as_bytes().to_vec();
    let text = camera_text_to_string(bytes).unwrap();
    assert_eq!(text, "snowman \u{2603} and accents \u{e9}\u{e8}");
}

#[test]
fn empty_text_converts_to_the_empty_string() {
    let text = camera_text_to_string(Vec::new()).unwrap();
    assert_eq!(text, "");
}

#[test]
fn invalid_text_is_reported_as_corrupted_data() {
    let err = camera_text_to_string(vec![0xff, 0xfe, 0x41]).unwrap_err();
    assert_eq!(err.kind(), ErrorKind::CorruptedData);
    let err = camera_text_to_string(vec![b'o', b'k', 0x80]).unwrap_err();
    assert_eq!(err.kind(), ErrorKind::CorruptedData);
}
