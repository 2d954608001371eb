use hd2re::names::{container_id, format_hex16, join, resolve_tier_file};
use hd2re::parse::Tier;

#[test]
fn name_of_sixteen_digits_is_a_container_id() {
    assert_eq!(container_id("000000000000001f"), Some(0x1f));
    assert_eq!(container_id("0123456789abcdef"), Some(0x0123_4567_89AB_CDEF));
    assert_eq!(container_id("ffffffffffffffff"), Some(u64::MAX));
    assert_eq!(container_id("0000000000000000"), Some(0));
}

#[test]
fn digits_of_either_case_are_read() {
    assert_eq!(container_id("ABCDEF"), Some(0xABCDEF));
    assert_eq!(container_id("aBcDeF"), Some(0xABCDEF));
    assert_eq!(container_id("9"), Some(9));
}

#[test]
fn leading_plus_and_zeros_are_read() {
    assert_eq!(container_id("+1f"), Some(0x1f));
    assert_eq!(container_id("00000000000000000000001"), Some(1));
    assert_eq!(container_id("0ffffffffffffffff"), Some(u64::MAX));
}

#[test]
fn name_without_digits_is_no_container_id() {
    assert_eq!(container_id(""), None);
    assert_eq!(container_id("+"), None);
    assert_eq!(container_id("++1"), None);
    assert_eq!(container_id("-1"), None);
    assert_eq!(container_id("1+"), None);
}

#[test]
fn name_with_another_character_is_no_container_id() {
    assert_eq!(container_id("000000000000001g"), None);
    assert_eq!(container_id("0x1f"), None);
    assert_eq!(container_id(" 1f"), None);
    assert_eq!(container_id("1f "), None);
    assert_eq!(container_id("settings"), None);
    assert_eq!(container_id("1é"), None);
    assert_eq!(container_id("１"), None);
}

#[test]
fn name_with_an_extension_is_no_container_id() {
    assert_eq!(container_id("000000000000001f.stream"), None);
    assert_eq!(container_id("000000000000001f.gpu_resources"), None);
    assert_eq!(container_id("abc.def"), None);
    assert_eq!(container_id(".abc"), None);
    assert_eq!(container_id("abc."), None);
}

#[test]
fn number_above_64_bits_is_no_container_id() {
    assert_eq!(container_id("10000000000000000"), None);
    assert_eq!(container_id("fffffffffffffffff"), None);
    assert_eq!(container_id("+10000000000000000"), None);
}

#[test]
fn hex16_pads_to_sixteen_lower_case_digits() {
    assert_eq!(format_hex16(0), "0000000000000000");
    assert_eq!(format_hex16(0x1f), "000000000000001f");
    assert_eq!(format_hex16(0x0123_4567_89AB_CDEF), "0123456789abcdef");
    assert_eq!(format_hex16(u64::MAX), "ffffffffffffffff");
}

#[test]
fn written_id_reads_back() {
    for id in [0u64, 1, 0xABCDEF, 0x8000_0000_0000_0000, u64::MAX] {
        assert_eq!(container_id(&format_hex16(id)), Some(id));
    }
}

#[test]
fn join_puts_one_slash_between() {
    assert_eq!(join("data", "0000000000000001"), "data/0000000000000001");
    assert_eq!(join("/games/data", "x"), "/games/data/x");
}

#[test]
fn join_adds_no_slash_to_one() {
    assert_eq!(join("data/", "x"), "data/x");
    assert_eq!(join("/", "x"), "/x");
}

#[test]
fn join_to_no_directory_is_the_name() {
    assert_eq!(join("", "x"), "x");
}

#[test]
fn tier_files_carry_their_suffixes() {
    assert_eq!(resolve_tier_file("data", 0x1f, Tier::Data), "data/000000000000001f");
    assert_eq!(resolve_tier_file("data", 0x1f, Tier::Stream), "data/000000000000001f.stream");
    assert_eq!(
        resolve_tier_file("data", 0x1f, Tier::Gpu),
        "data/000000000000001f.gpu_resources"
    );
}
