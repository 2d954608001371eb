use hd2re::index::ReadError;
use hd2re::sniff::{sniff_wav, LibMagicSniff, SignatureDatabase, SniffError};

#[test]
fn guesses_that_say_nothing_are_worthless() {
    assert!(LibMagicSniff::guess_is_worthless("data"));
    assert!(LibMagicSniff::guess_is_worthless("empty"));
    assert!(LibMagicSniff::guess_is_worthless(""));
}

#[test]
fn other_guesses_are_worth_something() {
    assert!(!LibMagicSniff::guess_is_worthless("PNG image data, 512 x 512"));
    assert!(!LibMagicSniff::guess_is_worthless("Data"));
    assert!(!LibMagicSniff::guess_is_worthless("date"));
    assert!(!LibMagicSniff::guess_is_worthless("datum"));
    assert!(!LibMagicSniff::guess_is_worthless("empti"));
    assert!(!LibMagicSniff::guess_is_worthless(" "));
    assert!(!LibMagicSniff::guess_is_worthless("data "));
    assert!(!LibMagicSniff::guess_is_worthless("dåta"));
}

#[test]
fn riff_signature_shows_a_wav() {
    assert!(sniff_wav(&Ok([0x52, 0x49, 0x46, 0x46])));
    assert!(sniff_wav(&Ok(*b"RIFF")));
}

#[test]
fn other_bytes_show_no_wav() {
    assert!(!sniff_wav(&Ok(*b"RIFX")));
    assert!(!sniff_wav(&Ok(*b"FFIR")));
    assert!(!sniff_wav(&Ok(*b"riff")));
    assert!(!sniff_wav(&Ok([0; 4])));
}

#[test]
fn failed_read_shows_no_wav() {
    assert!(!sniff_wav(&Err(ReadError::SizeExceeded)));
    assert!(!sniff_wav(&Err(ReadError::NotFound)));
    assert!(!sniff_wav(&Err(ReadError::OutOfFile)));
}

#[test]
fn new_sniff_has_no_result() {
    assert!(LibMagicSniff::new().results.is_empty());
}

#[test]
fn recorded_guesses_stand_under_their_key() {
    let mut sniff = LibMagicSniff::new();
    sniff.record(7, Some(String::from("PNG image")), None, Some(String::from("data")));
    sniff.record(9, None, None, None);
    assert_eq!(sniff.results.len(), 2);
    assert_eq!(
        sniff.results[&7],
        (String::from("PNG image"), String::new(), String::from("data"))
    );
    assert_eq!(sniff.results[&9], (String::new(), String::new(), String::new()));
}

#[test]
fn later_guesses_replace_earlier_ones() {
    let mut sniff = LibMagicSniff::new();
    sniff.record(7, Some(String::from("first")), None, None);
    sniff.record(8, None, Some(String::from("kept")), None);
    sniff.record(7, None, None, Some(String::from("second")));
    assert_eq!(sniff.results.len(), 2);
    assert_eq!(sniff.results[&7], (String::new(), String::new(), String::from("second")));
    assert_eq!(sniff.results[&8], (String::new(), String::from("kept"), String::new()));
}

const PNG: [u8; 33] = [
    0x89, 0x50, 0x4E, 0x47, 0x0D, 0x0A, 0x1A, 0x0A, 0x00, 0x00, 0x00, 0x0D, 0x49, 0x48, 0x44, 0x52,
    0x00, 0x00, 0x00, 0x10, 0x00, 0x00, 0x00, 0x20, 0x08, 0x06, 0x00, 0x00, 0x00, 0x1B, 0x2E, 0x5B,
    0x5A,
];

#[test]
fn missing_database_does_not_open() {
    let result = SignatureDatabase::open("/nonexistent/signatures/of/nothing.mgc");
    assert_eq!(result.err(), Some(SniffError::Database));
}

#[test]
fn database_tells_a_png_from_text() {
    let database = SignatureDatabase::open("").unwrap();
    let mut sniff = LibMagicSniff::new();
    let text = b"The quick brown fox jumps over the lazy dog.\n";
    sniff.sniff_asset(&database, 1, Some(&PNG), Some(text), None).unwrap();
    let (data, stream, gpu) = &sniff.results[&1];
    assert!(data.starts_with("PNG image data"), "{data}");
    assert!(stream.contains("ASCII text"), "{stream}");
    assert_eq!(gpu, "");
    assert!(!LibMagicSniff::guess_is_worthless(data));
    assert!(LibMagicSniff::guess_is_worthless(gpu));
}

#[test]
fn database_has_no_name_for_noise() {
    let database = SignatureDatabase::open("").unwrap();
    let mut sniff = LibMagicSniff::new();
    let noise = [0xD3, 0x01, 0xFE, 0x77, 0x9A];
    sniff.sniff_asset(&database, 2, Some(&noise), Some(&[]), None).unwrap();
    let (data, stream, _) = &sniff.results[&2];
    assert_eq!(data, "data");
    assert_eq!(stream, "empty");
    assert!(LibMagicSniff::guess_is_worthless(data));
    assert!(LibMagicSniff::guess_is_worthless(stream));
}

#[test]
fn unread_tiers_are_recorded_without_asking() {
    let database = SignatureDatabase::open("").unwrap();
    let mut sniff = LibMagicSniff::new();
    sniff.sniff_asset(&database, 3, None, None, None).unwrap();
    sniff.sniff_asset(&database, 4, Some(&PNG), None, None).unwrap();
    sniff.sniff_asset(&database, 4, None, None, Some(&PNG)).unwrap();
    assert_eq!(sniff.results.len(), 2);
    assert_eq!(sniff.results[&3], (String::new(), String::new(), String::new()));
    assert_eq!(sniff.results[&4].0, "");
    assert!(sniff.results[&4].2.starts_with("PNG image data"));
}
