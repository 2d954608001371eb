//! The 64-bit name hash that the archive format uses for type tags and
//! path-like identifiers.

use crate::bytes::{le_word, load_word};
use crate::lines::{line_views, split_lines, text_lines};
use std::collections::HashMap;
use std::hash::{BuildHasher, Hasher};
use vstd::prelude::*;
use vstd::string::StrSliceExecFns;
use vstd::utf8::encode_utf8;

verus! {

/// Multiplier of every mixing step.
pub const MULTIPLIER: u64 = 0xc6a4a7935bd1e995;

/// Right shift of every mixing step.
pub const SHIFT: u64 = 47;

/// The state before any byte is absorbed: the key's length times the multiplier.
pub open spec fn seed(len: nat) -> u64 {
    (len as u64).wrapping_mul(MULTIPLIER)
}

/// One full 8-byte block `word` folded into the state `h`.
pub open spec fn absorb(h: u64, word: u64) -> u64 {
    let k1 = word.wrapping_mul(MULTIPLIER);
    let k2 = k1 ^ (k1 >> SHIFT);
    let k3 = k2.wrapping_mul(MULTIPLIER);
    (h ^ k3).wrapping_mul(MULTIPLIER)
}

/// The final partial block `word` (1 to 7 bytes, zero-extended) folded into `h`.
pub open spec fn absorb_tail(h: u64, word: u64) -> u64 {
    (h ^ word).wrapping_mul(MULTIPLIER)
}

/// The two closing shift-and-multiply rounds.
pub open spec fn finalize(h: u64) -> u64 {
    let h1 = h ^ (h >> SHIFT);
    let h2 = h1.wrapping_mul(MULTIPLIER);
    h2 ^ (h2 >> SHIFT)
}

/// The state after the first `blocks` full blocks of `key`.
pub open spec fn absorbed(key: Seq<u8>, blocks: nat) -> u64
    decreases blocks,
{
    if blocks == 0 {
        seed(key.len())
    } else {
        absorb(absorbed(key, (blocks - 1) as nat), le_word(key, 8 * (blocks - 1), 8))
    }
}

/// The hash of `key`: every full block absorbed in order, then the partial
/// block if there is one, then the closing rounds.
pub open spec fn spec_stingray_hash(key: Seq<u8>) -> u64 {
    let blocks = key.len() / 8;
    let rest = key.len() % 8;
    let h = absorbed(key, blocks);
    if rest == 0 {
        finalize(h)
    } else {
        finalize(absorb_tail(h, le_word(key, (8 * blocks) as int, rest as int)))
    }
}

/// Hashes `key` with the 64-bit Murmur2 mix, seed 0.
pub fn stingray_hash(key: &[u8]) -> (hash: u64)
    ensures
        hash == spec_stingray_hash(key@),
{
    let len: usize = key.len();
    let blocks: usize = len / 8;
    let rest: usize = len % 8;
    let mut h: u64 = (len as u64).wrapping_mul(MULTIPLIER);
    let mut done: usize = 0;
    while done < blocks
        invariant
            len == key@.len(),
            blocks == len / 8,
            done <= blocks,
            h == absorbed(key@, done as nat),
        decreases blocks - done,
    {
        let mut k: u64 = load_word(key, 8 * done, 8);
        k = k.wrapping_mul(MULTIPLIER);
        k ^= k >> SHIFT;
        k = k.wrapping_mul(MULTIPLIER);
        h ^= k;
        h = h.wrapping_mul(MULTIPLIER);
        done += 1;
    }
    if rest > 0 {
        h ^= load_word(key, 8 * blocks, rest);
        h = h.wrapping_mul(MULTIPLIER);
    }
    h ^= h >> SHIFT;
    h = h.wrapping_mul(MULTIPLIER);
    h ^= h >> SHIFT;
    h
}

/// The hash of a name: the hash of its UTF-8 bytes.
pub open spec fn spec_name_hash(name: Seq<char>) -> u64 {
    spec_stingray_hash(encode_utf8(name))
}

/// Builds hashers for maps whose keys are hashes already.
pub struct NoHash;

impl Default for NoHash {
    fn default() -> (builder: NoHash)
        ensures
            builder == NoHash,
    {
        NoHash
    }
}

/// A hasher that hands a 64-bit key back as its own hash.
pub struct NoHashHasher(u64);

impl NoHashHasher {
    /// The value that `finish` hands out.
    pub closed spec fn state(&self) -> u64 {
        self.0
    }
}

impl Hasher for NoHashHasher {
    fn finish(&self) -> (hash: u64)
        ensures
            hash == self.state(),
    {
        self.0
    }

    /// Only whole 64-bit keys feed this hasher: other bytes leave it as it is.
    fn write(&mut self, bytes: &[u8])
        ensures
            final(self).state() == old(self).state(),
    {
    }

    fn write_u64(&mut self, i: u64)
        ensures
            final(self).state() == i,
    {
        self.0 = i;
    }
}

impl BuildHasher for NoHash {
    type Hasher = NoHashHasher;

    fn build_hasher(&self) -> (hasher: NoHashHasher)
        ensures
            hasher.state() == 0,
    {
        NoHashHasher(0)
    }
}

/// Whether a line of a dictionary file names nothing: it is empty or a
/// comment, which starts with `//`.
pub open spec fn is_skipped_line(line: Seq<char>) -> bool {
    line.len() == 0 || (line.len() >= 2 && line[0] == '/' && line[1] == '/')
}

/// The table that the lines of a dictionary file give: each name under its
/// hash, a later line replacing an earlier one of the same hash.
pub open spec fn dictionary_of(lines: Seq<Seq<char>>) -> Map<u64, Seq<char>>
    decreases lines.len(),
{
    if lines.len() == 0 {
        Map::empty()
    } else if is_skipped_line(lines.last()) {
        dictionary_of(lines.drop_last())
    } else {
        dictionary_of(lines.drop_last()).insert(spec_name_hash(lines.last()), lines.last())
    }
}

/// Known names by their hashes.
#[derive(Debug)]
pub struct Dictionary {
    map: HashMap<u64, String>,
}

impl View for Dictionary {
    type V = Map<u64, Seq<char>>;

    closed spec fn view(&self) -> Map<u64, Seq<char>> {
        self.map@.map_values(|name: String| name@)
    }
}

impl Dictionary {
    /// Makes the dictionary of the text of a dictionary file: a name on each
    /// line, but for empty lines and comments.
    pub fn load(text: &str) -> (dictionary: Dictionary)
        ensures
            dictionary@ == dictionary_of(text_lines(text@)),
    {
        let lines = split_lines(text);
        Dictionary::from_lines(&lines)
    }

    /// Makes the dictionary of the lines of a dictionary file.
    pub fn from_lines(lines: &Vec<String>) -> (dictionary: Dictionary)
        ensures
            dictionary@ == dictionary_of(line_views(lines@)),
    {
        broadcast use vstd::std_specs::hash::group_hash_axioms;
        let ghost views = line_views(lines@);
        let mut map: HashMap<u64, String> = HashMap::new();
        assert(views.take(0) =~= Seq::empty());
        assert(map@.map_values(|name: String| name@) =~= Map::empty());
        let mut i: usize = 0;
        while i < lines.len()
            invariant
                i <= lines.len(),
                views == line_views(lines@),
                map@.map_values(|name: String| name@) == dictionary_of(views.take(i as int)),
            decreases lines.len() - i,
        {
            let line = lines[i].as_str();
            proof {
                let next = views.take(i + 1);
                assert(next.drop_last() =~= views.take(i as int));
                assert(next.last() == line@);
            }
            let len: usize = line.unicode_len();
            let skipped = len == 0 || (len >= 2 && line.get_char(0) == '/' && line.get_char(1)
                == '/');
            if !skipped {
                let hash = stingray_hash(line.as_bytes());
                let name = lines[i].clone();
                let ghost before = map@;
                map.insert(hash, name);
                assert(map@.map_values(|name: String| name@) =~= before.map_values(
                    |name: String| name@,
                ).insert(hash, line@));
            }
            i += 1;
        }
        assert(views.take(lines.len() as int) =~= views);
        Dictionary { map }
    }

    /// The name with the given hash, where the dictionary holds one.
    pub fn get(&self, hash: u64) -> (name: Option<&str>)
        ensures
            match name {
                Some(name) => self@.contains_key(hash) && name@ == self@[hash],
                None => !self@.contains_key(hash),
            },
    {
        broadcast use vstd::std_specs::hash::group_hash_axioms;
        match self.map.get(&hash) {
            Some(name) => Some(name.as_str()),
            None => None,
        }
    }

    /// The number of names in the dictionary.
    pub fn len(&self) -> (len: usize)
        ensures
            len == self@.len(),
    {
        broadcast use vstd::std_specs::hash::group_hash_axioms;
        assert(self@.dom() =~= self.map@.dom());
        self.map.len()
    }
}

} // verus!
