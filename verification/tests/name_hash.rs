use std::hash::{BuildHasher, Hasher};

use hd2re::hash::{stingray_hash, Dictionary, NoHash};
use hd2re::parse::DataType;

#[test]
fn data_type_names_hash() {
    for ty in DataType::iter() {
        if ty.is_known() {
            assert_eq!(stingray_hash(ty.name().as_bytes()), ty.tag());
        }
    }
}

#[test]
fn hash_of_nothing_is_zero() {
    assert_eq!(stingray_hash(b""), 0);
}

#[test]
fn hash_of_a_partial_block() {
    assert_eq!(stingray_hash(b"bik"), 0xAA5965F03029FA18);
    assert_eq!(stingray_hash(b"texture"), 0xCD4238C6A0C69E32);
}

#[test]
fn hash_of_one_full_block() {
    assert_eq!(stingray_hash(b"material"), 0xEAC0B497876ADEDF);
}

#[test]
fn hash_of_blocks_and_a_partial_block() {
    assert_eq!(stingray_hash(b"packages/boot"), 0x9BA626AFA44A3AA3);
    assert_eq!(stingray_hash(b"shading_environment_mapping"), 0x250E0A11AC8E26F8);
}

#[test]
fn hash_reads_blocks_little_endian() {
    assert_ne!(stingray_hash(b"abcdefgh"), stingray_hash(b"hgfedcba"));
    assert_ne!(stingray_hash(b"ab"), stingray_hash(b"ba"));
}

#[test]
fn hash_depends_on_the_length() {
    assert_ne!(stingray_hash(&[0u8; 3]), stingray_hash(&[0u8; 4]));
    assert_ne!(stingray_hash(&[0u8; 8]), stingray_hash(&[0u8; 16]));
}

#[test]
fn hash_is_a_function_of_the_bytes() {
    let first = Vec::from(&b"content/fac_helldivers/cha_avatar"[..]);
    let second = first.clone();
    assert_eq!(stingray_hash(&first), stingray_hash(&second));
    assert_eq!(stingray_hash(&first), stingray_hash(&first));
}

#[test]
fn no_hash_hands_the_key_back() {
    let mut hasher = NoHash.build_hasher();
    assert_eq!(hasher.finish(), 0);
    hasher.write_u64(0xCD4238C6A0C69E32);
    assert_eq!(hasher.finish(), 0xCD4238C6A0C69E32);
    hasher.write(b"ignored");
    assert_eq!(hasher.finish(), 0xCD4238C6A0C69E32);
}

#[test]
fn no_hash_default_builds_the_same_hasher() {
    let hasher = NoHash::default().build_hasher();
    assert_eq!(hasher.finish(), 0);
}

#[test]
fn dictionary_keeps_names_under_their_hashes() {
    let lines = vec![
        String::from("// known names"),
        String::from("texture"),
        String::new(),
        String::from("packages/boot"),
        String::from("//packages/pre_boot"),
    ];
    let dictionary = Dictionary::from_lines(&lines);
    assert_eq!(dictionary.len(), 2);
    assert_eq!(dictionary.get(0xCD4238C6A0C69E32), Some("texture"));
    assert_eq!(dictionary.get(0x9BA626AFA44A3AA3), Some("packages/boot"));
    assert_eq!(dictionary.get(stingray_hash(b"//packages/pre_boot")), None);
    assert_eq!(dictionary.get(stingray_hash(b"")), None);
    assert_eq!(dictionary.get(1), None);
}

#[test]
fn dictionary_keeps_a_repeated_name_once() {
    let lines = vec![String::from("lua"), String::from("bik"), String::from("lua")];
    let dictionary = Dictionary::from_lines(&lines);
    assert_eq!(dictionary.len(), 2);
    assert_eq!(dictionary.get(0xA14E8DFA2CD117E2), Some("lua"));
}

#[test]
fn dictionary_reads_a_single_slash_as_a_name() {
    let lines = vec![String::from("/"), String::from("/a/")];
    let dictionary = Dictionary::from_lines(&lines);
    assert_eq!(dictionary.len(), 2);
    assert_eq!(dictionary.get(stingray_hash(b"/")), Some("/"));
    assert_eq!(dictionary.get(stingray_hash(b"/a/")), Some("/a/"));
}

#[test]
fn dictionary_of_no_lines_is_empty() {
    let dictionary = Dictionary::from_lines(&Vec::new());
    assert_eq!(dictionary.len(), 0);
    assert_eq!(dictionary.get(0), None);
}

#[test]
fn dictionary_hashes_the_utf8_bytes_of_a_name() {
    let lines = vec![String::from("données")];
    let dictionary = Dictionary::from_lines(&lines);
    assert_eq!(dictionary.get(stingray_hash("données".as_bytes())), Some("données"));
}

#[test]
fn dictionary_of_a_text_has_a_name_on_each_line() {
    let text = "// known names\ntexture\n\npackages/boot\r\n//packages/pre_boot\nlua";
    let dictionary = Dictionary::load(text);
    assert_eq!(dictionary.len(), 3);
    assert_eq!(dictionary.get(0xCD4238C6A0C69E32), Some("texture"));
    assert_eq!(dictionary.get(0x9BA626AFA44A3AA3), Some("packages/boot"));
    assert_eq!(dictionary.get(0xA14E8DFA2CD117E2), Some("lua"));
    assert_eq!(dictionary.get(stingray_hash(b"packages/boot\r")), None);
}

#[test]
fn dictionary_of_an_empty_text_is_empty() {
    assert_eq!(Dictionary::load("").len(), 0);
    assert_eq!(Dictionary::load("\n\r\n\n").len(), 0);
    assert_eq!(Dictionary::load("// nothing\n").len(), 0);
}
