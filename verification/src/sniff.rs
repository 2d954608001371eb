//! What content sniffers keep of their guesses about the assets of an index.

use crate::index::ReadError;
use magic::cookie::{Cookie, DatabasePaths, Flags, Load};
use std::collections::HashMap;
use vstd::prelude::*;
use vstd::string::StrSliceExecFns;

verus! {

/// `magic::cookie::Error`: the error of the signature library, carried
/// through and never looked into.
#[verifier::external_type_specification]
#[verifier::external_body]
pub struct ExMagicError(magic::cookie::Error);

/// Signature databases, loaded and ready to be asked: a `magic::Cookie` in
/// its loaded state, of which nothing is known here but that it is one.
#[verifier::external_body]
pub struct SignatureDatabase {
    cookie: Cookie<Load>,
}

/// `magic::Cookie::open` with no flags, then `magic::Cookie::load` on the
/// database files that `database` names: the loaded cookie, or nothing where
/// either fails. What comes back depends on the files, so nothing is claimed
/// of it.
#[verifier::external_body]
fn open_cookie(database: &str) -> (opened: Option<SignatureDatabase>) {
    let paths = DatabasePaths::new([database]).ok()?;
    let cookie = Cookie::open(Flags::empty()).ok()?.load(&paths).ok()?;
    Some(SignatureDatabase { cookie })
}

/// `magic::Cookie::buffer`: what the loaded signature databases say of the
/// content of `bytes`, or the error of the signature library. The text
/// depends on the databases, so nothing is claimed of it.
#[verifier::external_body]
fn describe(database: &SignatureDatabase, bytes: &[u8]) -> (guess: Result<
    String,
    magic::cookie::Error,
>) {
    database.cookie.buffer(bytes)
}

/// Why a sniff could not go on.
#[derive(Debug, Eq, PartialEq, Structural, Copy, Clone)]
pub enum SniffError {
    /// The signature databases could not be loaded.
    Database,
    /// The signature library failed on the bytes of a tier.
    Library,
}

impl SignatureDatabase {
    /// Loads the signature databases that `database` names, several files
    /// parted by `:`; the empty text names the default databases of the
    /// signature library.
    pub fn open(database: &str) -> (result: Result<SignatureDatabase, SniffError>)
        ensures
            result is Err ==> result->Err_0 == SniffError::Database,
    {
        database_of_attempt(open_cookie(database))
    }
}

/// What an attempt to load signature databases comes to: the databases
/// where they were loaded, else the error `Database`.
fn database_of_attempt(opened: Option<SignatureDatabase>) -> (result: Result<
    SignatureDatabase,
    SniffError,
>)
    ensures
        result == match opened {
            Some(database) => Ok::<SignatureDatabase, SniffError>(database),
            None => Err::<SignatureDatabase, SniffError>(SniffError::Database),
        },
{
    match opened {
        Some(database) => Ok(database),
        None => Err(SniffError::Database),
    }
}

/// The guess recorded for a tier whose bytes could not be read: none.
pub open spec fn guess_or_empty(guess: Option<String>) -> Seq<char> {
    match guess {
        Some(text) => text@,
        None => Seq::empty(),
    }
}

/// Whether a guess says nothing of the content: `data`, `empty`, or no guess.
pub open spec fn is_worthless(guess: Seq<char>) -> bool {
    guess == seq!['d', 'a', 't', 'a'] || guess == seq!['e', 'm', 'p', 't', 'y'] || guess.len() == 0
}

/// Whether four bytes are the signature that starts a RIFF file.
pub open spec fn is_riff(prefix: Seq<u8>) -> bool {
    prefix == seq![0x52u8, 0x49u8, 0x46u8, 0x46u8]
}

/// Whether the first four streamed bytes of an asset show a WAV file. A
/// failed read shows none.
pub fn sniff_wav(prefix: &Result<[u8; 4], ReadError>) -> (wav: bool)
    ensures
        wav == (*prefix matches Ok(bytes) && is_riff(bytes@)),
{
    match prefix {
        Ok(bytes) => {
            let wav = bytes[0] == 0x52 && bytes[1] == 0x49 && bytes[2] == 0x46 && bytes[3] == 0x46;
            assert(wav == (bytes@ =~= seq![0x52u8, 0x49u8, 0x46u8, 0x46u8]));
            wav
        },
        Err(_) => false,
    }
}

/// The guess for one tier: the empty text where its bytes could not be
/// read, else what the signature databases say of them.
fn guess_of_tier(database: &SignatureDatabase, bytes: Option<&[u8]>) -> (guess: Result<
    String,
    SniffError,
>)
    ensures
        bytes is None ==> (guess matches Ok(text) && text@ == Seq::<char>::empty()),
        guess is Err ==> guess == Err::<String, SniffError>(SniffError::Library),
{
    match bytes {
        None => Ok(String::new()),
        Some(bytes) => guess_of_answer(describe(database, bytes)),
    }
}

/// The guess that an answer of the signature library comes to: its text,
/// or the error `Library` where the library failed.
fn guess_of_answer(answer: Result<String, magic::cookie::Error>) -> (guess: Result<
    String,
    SniffError,
>)
    ensures
        answer matches Ok(text) ==> guess == Ok::<String, SniffError>(text),
        answer is Err ==> guess == Err::<String, SniffError>(SniffError::Library),
{
    match answer {
        Ok(text) => Ok(text),
        Err(_) => Err(SniffError::Library),
    }
}

/// For each asset, what a signature database guessed of its bytes in the
/// container file, the stream file and the gpu resources file.
#[derive(Debug)]
pub struct LibMagicSniff {
    pub results: HashMap<u64, (String, String, String)>,
}

impl LibMagicSniff {
    /// A sniff with no result yet.
    pub fn new() -> (sniff: LibMagicSniff)
        ensures
            sniff.results@ == Map::<u64, (String, String, String)>::empty(),
    {
        LibMagicSniff { results: HashMap::new() }
    }

    /// Records the guesses for the three tiers of the asset `key`, replacing
    /// what was recorded for it before. A tier that could not be read has no
    /// guess and is recorded with the empty text.
    pub fn record(
        &mut self,
        key: u64,
        data: Option<String>,
        stream: Option<String>,
        gpu: Option<String>,
    )
        ensures
            final(self).results@.dom() == old(self).results@.dom().insert(key),
            final(self).results@[key].0@ == guess_or_empty(data),
            final(self).results@[key].1@ == guess_or_empty(stream),
            final(self).results@[key].2@ == guess_or_empty(gpu),
            forall|other: u64|
                other != key && old(self).results@.contains_key(other)
                    ==> final(self).results@[other] == old(self).results@[other],
    {
        broadcast use vstd::std_specs::hash::group_hash_axioms;
        let data = match data {
            Some(text) => text,
            None => String::new(),
        };
        let stream = match stream {
            Some(text) => text,
            None => String::new(),
        };
        let gpu = match gpu {
            Some(text) => text,
            None => String::new(),
        };
        self.results.insert(key, (data, stream, gpu));
    }

    /// Asks the signature databases about the bytes of the three
    /// tiers of the asset `key` and records the guesses. `None` stands for a
    /// tier whose bytes could not be read: it is recorded with the empty
    /// text, and the databases are not asked. Where the signature library
    /// fails on a tier, nothing is recorded.
    pub fn sniff_asset(
        &mut self,
        database: &SignatureDatabase,
        key: u64,
        data: Option<&[u8]>,
        stream: Option<&[u8]>,
        gpu: Option<&[u8]>,
    ) -> (result: Result<(), SniffError>)
        ensures
            data is None && stream is None && gpu is None ==> result is Ok,
            match result {
                Ok(_) => {
                    &&& final(self).results@.dom() == old(self).results@.dom().insert(key)
                    &&& data is None ==> final(self).results@[key].0@ == Seq::<char>::empty()
                    &&& stream is None ==> final(self).results@[key].1@ == Seq::<char>::empty()
                    &&& gpu is None ==> final(self).results@[key].2@ == Seq::<char>::empty()
                    &&& forall|other: u64|
                        other != key && old(self).results@.contains_key(other)
                            ==> final(self).results@[other] == old(self).results@[other]
                },
                Err(error) => error == SniffError::Library
                    && final(self).results@ == old(self).results@,
            },
    {
        let data_guess = match guess_of_tier(database, data) {
            Ok(text) => text,
            Err(error) => {
                return Err(error);
            },
        };
        let stream_guess = match guess_of_tier(database, stream) {
            Ok(text) => text,
            Err(error) => {
                return Err(error);
            },
        };
        let gpu_guess = match guess_of_tier(database, gpu) {
            Ok(text) => text,
            Err(error) => {
                return Err(error);
            },
        };
        self.record(key, Some(data_guess), Some(stream_guess), Some(gpu_guess));
        Ok(())
    }

    pub fn guess_is_worthless(guess: &str) -> (worthless: bool)
        ensures
            worthless == is_worthless(guess@),
    {
        let len: usize = guess.unicode_len();
        if len == 0 {
            true
        } else if len == 4 {
            let found = guess.get_char(0) == 'd' && guess.get_char(1) == 'a' && guess.get_char(2)
                == 't' && guess.get_char(3) == 'a';
            assert(found == (guess@ =~= seq!['d', 'a', 't', 'a']));
            found
        } else if len == 5 {
            let found = guess.get_char(0) == 'e' && guess.get_char(1) == 'm' && guess.get_char(2)
                == 'p' && guess.get_char(3) == 't' && guess.get_char(4) == 'y';
            assert(found == (guess@ =~= seq!['e', 'm', 'p', 't', 'y']));
            found
        } else {
            false
        }
    }
}

} // verus!
