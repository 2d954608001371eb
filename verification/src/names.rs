//! File names of the archive directory: container ids written in
//! hexadecimal, the suffixes of the companion files, and paths below the
//! base directory.

use crate::parse::Tier;
use vstd::prelude::*;
use vstd::string::{StrSliceExecFns, StringExecFns};

verus! {

/// The lower-case hexadecimal digit of a value below 16.
pub open spec fn hex_char(nibble: int) -> char {
    seq!['0', '1', '2', '3', '4', '5', '6', '7', '8', '9', 'a', 'b', 'c', 'd', 'e', 'f'][nibble]
}

/// The `n` lowest hexadecimal digits of `value`, the most significant first.
pub open spec fn hex_digits(value: nat, n: nat) -> Seq<char>
    decreases n,
{
    if n == 0 {
        Seq::empty()
    } else {
        hex_digits(value / 16, (n - 1) as nat).push(hex_char((value % 16) as int))
    }
}

/// A 64-bit value as 16 lower-case hexadecimal digits, zero-padded.
pub open spec fn hex16(value: u64) -> Seq<char> {
    hex_digits(value as nat, 16)
}

fn hex_digit_str(nibble: u64) -> (digit: &'static str)
    requires
        nibble < 16,
    ensures
        digit@ == seq![hex_char(nibble as int)],
{
    proof {
        reveal_strlit("0");
        reveal_strlit("1");
        reveal_strlit("2");
        reveal_strlit("3");
        reveal_strlit("4");
        reveal_strlit("5");
        reveal_strlit("6");
        reveal_strlit("7");
        reveal_strlit("8");
        reveal_strlit("9");
        reveal_strlit("a");
        reveal_strlit("b");
        reveal_strlit("c");
        reveal_strlit("d");
        reveal_strlit("e");
        reveal_strlit("f");
    }
    let digit = if nibble == 0 {
        "0"
    } else if nibble == 1 {
        "1"
    } else if nibble == 2 {
        "2"
    } else if nibble == 3 {
        "3"
    } else if nibble == 4 {
        "4"
    } else if nibble == 5 {
        "5"
    } else if nibble == 6 {
        "6"
    } else if nibble == 7 {
        "7"
    } else if nibble == 8 {
        "8"
    } else if nibble == 9 {
        "9"
    } else if nibble == 10 {
        "a"
    } else if nibble == 11 {
        "b"
    } else if nibble == 12 {
        "c"
    } else if nibble == 13 {
        "d"
    } else if nibble == 14 {
        "e"
    } else {
        "f"
    };
    assert(digit@ =~= seq![hex_char(nibble as int)]);
    digit
}

/// Appends the `n` lowest hexadecimal digits of `value` to `out`.
fn push_hex_digits(out: &mut String, value: u64, n: u8)
    ensures
        final(out)@ == old(out)@ + hex_digits(value as nat, n as nat),
    decreases n,
{
    if n > 0 {
        push_hex_digits(out, value / 16, n - 1);
        out.append(hex_digit_str(value % 16));
    }
}

/// Writes `value` as 16 lower-case hexadecimal digits.
pub fn format_hex16(value: u64) -> (text: String)
    ensures
        text@ == hex16(value),
{
    let mut text = String::new();
    push_hex_digits(&mut text, value, 16);
    text
}

/// The value of a hexadecimal digit, upper or lower case.
pub open spec fn hex_digit_value(c: char) -> Option<int> {
    if '0' <= c <= '9' {
        Some(c as int - '0' as int)
    } else if 'a' <= c <= 'f' {
        Some(c as int - 'a' as int + 10)
    } else if 'A' <= c <= 'F' {
        Some(c as int - 'A' as int + 10)
    } else {
        None
    }
}

/// Whether every character of `text` is a hexadecimal digit.
pub open spec fn all_hex_digits(text: Seq<char>) -> bool {
    forall|i: int| 0 <= i < text.len() ==> hex_digit_value(#[trigger] text[i]) is Some
}

/// The number that the hexadecimal digits of `text` write.
pub open spec fn hex_value(text: Seq<char>) -> nat
    decreases text.len(),
{
    if text.len() == 0 {
        0
    } else {
        (hex_value(text.drop_last()) * 16 + hex_digit_value(text.last()).unwrap_or(0)) as nat
    }
}

/// The digits of a name: the name without the one `+` that may lead it.
pub open spec fn digits_of(name: Seq<char>) -> Seq<char> {
    if name.len() > 0 && name[0] == '+' {
        name.drop_first()
    } else {
        name
    }
}

/// The container id that a file name stands for: the name read as a
/// hexadecimal number that fits in 64 bits, at least one digit long. A name
/// with an extension holds a `.` and so stands for none.
pub open spec fn spec_container_id(name: Seq<char>) -> Option<u64> {
    let digits = digits_of(name);
    if digits.len() > 0 && all_hex_digits(digits) && hex_value(digits) <= u64::MAX {
        Some(hex_value(digits) as u64)
    } else {
        None
    }
}

/// The number written by a prefix of hexadecimal digits is no greater than
/// the number written by the whole.
pub proof fn lemma_hex_value_grows(text: Seq<char>, k: int)
    requires
        0 <= k <= text.len(),
    ensures
        hex_value(text.take(k)) <= hex_value(text),
    decreases text.len() - k,
{
    if k == text.len() {
        assert(text.take(k) =~= text);
    } else {
        lemma_hex_value_grows(text, k + 1);
        assert(text.take(k + 1).drop_last() =~= text.take(k));
    }
}

fn digit_value(c: char) -> (value: Option<u64>)
    ensures
        match value {
            Some(v) => hex_digit_value(c) == Some(v as int) && v < 16,
            None => hex_digit_value(c) is None,
        },
{
    if '0' <= c && c <= '9' {
        Some(c as u64 - '0' as u64)
    } else if 'a' <= c && c <= 'f' {
        Some(c as u64 - 'a' as u64 + 10)
    } else if 'A' <= c && c <= 'F' {
        Some(c as u64 - 'A' as u64 + 10)
    } else {
        None
    }
}

/// Reads a file name as a container id.
pub fn container_id(name: &str) -> (id: Option<u64>)
    ensures
        id == spec_container_id(name@),
{
    let len: usize = name.unicode_len();
    let first: usize = if len > 0 && name.get_char(0) == '+' { 1 } else { 0 };
    let ghost digits = digits_of(name@);
    assert(digits =~= name@.subrange(first as int, len as int));
    if first == len {
        return None;
    }
    let mut value: u64 = 0;
    let mut i: usize = first;
    while i < len
        invariant
            first <= i <= len,
            len == name@.len(),
            digits == digits_of(name@),
            digits == name@.subrange(first as int, len as int),
            all_hex_digits(digits.take(i - first)),
            value == hex_value(digits.take(i - first)),
        decreases len - i,
    {
        let ghost before = digits.take(i - first);
        let ghost after = digits.take(i - first + 1);
        assert(after.drop_last() =~= before);
        assert(after.last() == name@[i as int]);
        assert(digits[i - first] == name@[i as int]);
        match digit_value(name.get_char(i)) {
            None => {
                assert(hex_digit_value(digits[i - first]) is None);
                return None;
            },
            Some(digit) => {
                assert(hex_value(after) == value * 16 + digit);
                if value > (u64::MAX - digit) / 16 {
                    proof {
                        lemma_hex_value_grows(digits, i - first + 1);
                    }
                    return None;
                }
                value = value * 16 + digit;
                assert forall|j: int| 0 <= j < after.len() implies hex_digit_value(
                    #[trigger] after[j],
                ) is Some by {
                    if j < before.len() {
                        assert(after[j] == before[j]);
                    }
                }
            },
        }
        i += 1;
    }
    assert(digits.take(len - first) =~= digits);
    Some(value)
}

/// The name of the primary container file with the given id.
pub open spec fn container_name(id: u64) -> Seq<char> {
    hex16(id)
}

/// Sixteen to the power `n`.
pub open spec fn pow16(n: nat) -> nat
    decreases n,
{
    if n == 0 {
        1
    } else {
        16 * pow16((n - 1) as nat)
    }
}

/// The `n` lowest hexadecimal digits of a value are `n` digits, and they
/// write the value modulo sixteen to the `n`.
pub proof fn lemma_hex_digits(value: nat, n: nat)
    ensures
        hex_digits(value, n).len() == n,
        all_hex_digits(hex_digits(value, n)),
        forall|i: int| 0 <= i < n ==> #[trigger] hex_digits(value, n)[i] != '+',
        pow16(n) > 0,
        hex_value(hex_digits(value, n)) == value % pow16(n),
    decreases n,
{
    if n > 0 {
        let front = hex_digits(value / 16, (n - 1) as nat);
        let digits = hex_digits(value, n);
        lemma_hex_digits(value / 16, (n - 1) as nat);
        assert(digits.drop_last() =~= front);
        assert(hex_digit_value(hex_char((value % 16) as int)) == Some((value % 16) as int));
        assert(hex_char((value % 16) as int) != '+');
        assert forall|i: int| 0 <= i < n implies hex_digit_value(#[trigger] digits[i]) is Some
            && digits[i] != '+' by {
            if i < n - 1 {
                assert(digits[i] == front[i]);
            }
        }
        vstd::arithmetic::div_mod::lemma_breakdown(value as int, 16, pow16((n - 1) as nat) as int);
    }
}

/// The name that a container id is written as reads back as that id: the
/// file that an entry of the index points to is one that a scan takes for
/// that container.
pub proof fn lemma_container_name_reads_back(id: u64)
    ensures
        spec_container_id(container_name(id)) == Some(id),
{
    lemma_hex_digits(id as nat, 16);
    assert(pow16(16) == 0x1_0000_0000_0000_0000) by {
        reveal_with_fuel(pow16, 17);
    }
    assert(digits_of(hex16(id)) == hex16(id));
}

/// `name` below the directory `base`: joined by a `/`, unless `base` is
/// empty or ends in one.
pub open spec fn join_path(base: Seq<char>, name: Seq<char>) -> Seq<char> {
    if base.len() == 0 || base.last() == '/' {
        base + name
    } else {
        base + seq!['/'] + name
    }
}

/// Joins a file name to a base directory.
pub fn join(base: &str, name: &str) -> (path: String)
    ensures
        path@ == join_path(base@, name@),
{
    let len: usize = base.unicode_len();
    let mut path = String::from_str(base);
    if len > 0 && base.get_char(len - 1) != '/' {
        proof {
            reveal_strlit("/");
        }
        path.append("/");
        assert("/"@ =~= seq!['/']);
    }
    path.append(name);
    path
}

/// What follows the container's name in the name of the file of `tier`.
pub open spec fn tier_suffix(tier: Tier) -> Seq<char> {
    match tier {
        Tier::Data => Seq::empty(),
        Tier::Stream => ".stream"@,
        Tier::Gpu => ".gpu_resources"@,
    }
}

/// The path of the file of `tier` that belongs to the container `file_id`
/// in the directory `base_dir`.
pub open spec fn tier_path(base_dir: Seq<char>, file_id: u64, tier: Tier) -> Seq<char> {
    join_path(base_dir, container_name(file_id)) + tier_suffix(tier)
}

/// Builds the path of the file of `tier` that belongs to the container
/// `file_id` in the directory `base_dir`.
pub fn resolve_tier_file(base_dir: &str, file_id: u64, tier: Tier) -> (path: String)
    ensures
        path@ == tier_path(base_dir@, file_id, tier),
{
    let name = format_hex16(file_id);
    let mut path = join(base_dir, name.as_str());
    match tier {
        Tier::Data => {
            assert(path@ + Seq::<char>::empty() =~= path@);
        },
        Tier::Stream => {
            path.append(".stream");
        },
        Tier::Gpu => {
            path.append(".gpu_resources");
        },
    }
    path
}

} // verus!
