//! The asset index: one table from asset identifiers to the container that
//! holds each asset and to its data record, built from the container files
//! of one directory.

use crate::names::{container_id, resolve_tier_file, spec_container_id, tier_path};
use crate::parse::{spec_decode, DataRecord, DecodeError, Hd2DataFile, Tier};
use std::collections::HashMap;
use std::ops::Index;
use vstd::prelude::*;
use vstd::slice::slice_to_vec;
use vstd::std_specs::iter::IteratorSpec;

verus! {

/// A data record together with the container file that it was read from.
#[derive(Debug, Eq, PartialEq, Structural, Copy, Clone)]
pub struct Entry {
    /// File where this asset is contained
    pub file_id: u64,
    pub record: DataRecord,
}

/// One regular file of the scanned directory: its name and its contents.
#[derive(Debug)]
pub struct ScannedFile {
    pub name: String,
    pub bytes: Vec<u8>,
}

impl View for ScannedFile {
    type V = (Seq<char>, Seq<u8>);

    open spec fn view(&self) -> (Seq<char>, Seq<u8>) {
        (self.name@, self.bytes@)
    }
}

/// The files of a scan as mathematical values.
pub open spec fn scanned(files: Seq<ScannedFile>) -> Seq<(Seq<char>, Seq<u8>)> {
    files.map_values(|f: ScannedFile| f@)
}

/// Why a directory gave no index: the file at position `file` of the scan is
/// a container by its name and does not decode.
#[derive(Debug, Eq, PartialEq, Structural, Copy, Clone)]
pub struct BuildError {
    pub file: usize,
    pub error: DecodeError,
}

/// The entries that the records of one container file give.
pub open spec fn entries_of(file_id: u64, records: Seq<DataRecord>) -> Seq<Entry> {
    Seq::new(records.len(), |i: int| Entry { file_id, record: records[i] })
}

/// What one file adds to a scan: nothing where its name is no container id,
/// the entries of its records where it decodes, else the decoder's error.
pub open spec fn file_rows(name: Seq<char>, bytes: Seq<u8>) -> Result<Seq<Entry>, DecodeError> {
    match spec_container_id(name) {
        None => Ok(Seq::empty()),
        Some(file_id) => match spec_decode(bytes) {
            Ok(file) => Ok(entries_of(file_id, file.data_headers)),
            Err(error) => Err(error),
        },
    }
}

/// The entries of all records of a scan, in scan order, or the first file
/// that fails.
pub open spec fn scan_rows(files: Seq<(Seq<char>, Seq<u8>)>) -> Result<Seq<Entry>, BuildError>
    decreases files.len(),
{
    if files.len() == 0 {
        Ok(Seq::empty())
    } else {
        match scan_rows(files.drop_last()) {
            Err(error) => Err(error),
            Ok(rows) => match file_rows(files.last().0, files.last().1) {
                Ok(more) => Ok(rows + more),
                Err(error) => Err(BuildError { file: (files.len() - 1) as usize, error }),
            },
        }
    }
}

/// The table that a sequence of entries gives: each entry under the id of
/// its record, a later entry replacing an earlier one of the same id.
pub open spec fn table_of(rows: Seq<Entry>) -> Map<u64, Entry>
    decreases rows.len(),
{
    if rows.len() == 0 {
        Map::empty()
    } else {
        table_of(rows.drop_last()).insert(rows.last().record.id, rows.last())
    }
}

/// Whether every entry of `table` stands under the id of its own record.
pub open spec fn keyed_by_id(table: Map<u64, Entry>) -> bool {
    forall|id: u64| #[trigger] table.contains_key(id) ==> table[id].record.id == id
}

/// What `table_of` holds under each id: the last entry of that id, where
/// there is one.
pub proof fn lemma_table_of(rows: Seq<Entry>)
    ensures
        table_of(rows).dom().finite(),
        keyed_by_id(table_of(rows)),
        forall|id: u64| #[trigger]
            table_of(rows).contains_key(id) <==> exists|k: int|
                0 <= k < rows.len() && (#[trigger] rows[k]).record.id == id,
        forall|k: int|
            0 <= k < rows.len() && (forall|j: int|
                k < j < rows.len() ==> (#[trigger] rows[j]).record.id != rows[k].record.id)
                ==> table_of(rows)[(#[trigger] rows[k]).record.id] == rows[k],
        forall|id: u64| #[trigger]
            table_of(rows).contains_key(id) ==> exists|k: int|
                0 <= k < rows.len() && #[trigger] rows[k] == table_of(rows)[id],
    decreases rows.len(),
{
    if rows.len() > 0 {
        let front = rows.drop_last();
        lemma_table_of(front);
        assert forall|id: u64| #[trigger]
            table_of(rows).contains_key(id) implies exists|k: int|
            0 <= k < rows.len() && #[trigger] rows[k] == table_of(rows)[id] by {
            if id == rows.last().record.id {
                assert(rows[rows.len() - 1] == table_of(rows)[id]);
            } else {
                let k = choose|k: int|
                    0 <= k < front.len() && #[trigger] front[k] == table_of(front)[id];
                assert(rows[k] == table_of(rows)[id]);
            }
        }
        assert forall|id: u64| #[trigger]
            table_of(rows).contains_key(id) implies exists|k: int|
            0 <= k < rows.len() && (#[trigger] rows[k]).record.id == id by {
            if id == rows.last().record.id {
                assert(rows[rows.len() - 1].record.id == id);
            } else {
                let k = choose|k: int|
                    0 <= k < front.len() && (#[trigger] front[k]).record.id == id;
                assert(rows[k].record.id == id);
            }
        }
        assert forall|id: u64|
            (exists|k: int|
                0 <= k < rows.len() && (#[trigger] rows[k]).record.id == id) implies #[trigger]
            table_of(rows).contains_key(id) by {
            let k = choose|k: int| 0 <= k < rows.len() && (#[trigger] rows[k]).record.id == id;
            if k < front.len() {
                assert(front[k].record.id == id);
            }
        }
        assert forall|k: int|
            0 <= k < rows.len() && (forall|j: int|
                k < j < rows.len() ==> (#[trigger] rows[j]).record.id
                    != rows[k].record.id) implies table_of(rows)[(#[trigger] rows[k]).record.id]
            == rows[k] by {
            if k < front.len() {
                assert(rows[rows.len() - 1].record.id != rows[k].record.id);
                assert(front[k] == rows[k]);
                assert forall|j: int| k < j < front.len() implies (#[trigger] front[j]).record.id
                    != front[k].record.id by {
                    assert(rows[j].record.id != rows[k].record.id);
                }
            }
        }
    }
}

/// Adds the entries of one container file to a table, in the order of its
/// records.
fn insert_records(
    items: &mut HashMap<u64, Entry>,
    file_id: u64,
    records: &Vec<DataRecord>,
    Ghost(rows): Ghost<Seq<Entry>>,
)
    requires
        old(items)@ == table_of(rows),
    ensures
        final(items)@ == table_of(rows + entries_of(file_id, records@)),
{
    broadcast use vstd::std_specs::hash::group_hash_axioms;
    let ghost more = entries_of(file_id, records@);
    assert(rows + more.take(0) =~= rows);
    let mut i: usize = 0;
    while i < records.len()
        invariant
            i <= records.len(),
            more == entries_of(file_id, records@),
            items@ == table_of(rows + more.take(i as int)),
        decreases records.len() - i,
    {
        let record = records[i];
        proof {
            let next = rows + more.take(i + 1);
            assert(next.drop_last() =~= rows + more.take(i as int));
            assert(next.last() == Entry { file_id, record });
        }
        items.insert(record.id, Entry { file_id, record });
        i += 1;
    }
    assert(more.take(records.len() as int) =~= more);
}

/// The index as a mathematical value.
pub struct IndexView {
    pub base_dir: Seq<char>,
    pub entries: Map<u64, Entry>,
}

/// The asset index of one directory. It is made whole, by `create_index` or
/// `restore`, and not changed afterwards.
pub struct HD2Index {
    base_dir: String,
    items: HashMap<u64, Entry>,
}

impl View for HD2Index {
    type V = IndexView;

    closed spec fn view(&self) -> IndexView {
        IndexView { base_dir: self.base_dir@, entries: self.items@ }
    }
}

impl HD2Index {
    #[verifier::type_invariant]
    spec fn keys_are_ids(&self) -> bool {
        keyed_by_id(self.items@)
    }

    /// Builds the index of the directory `base_dir` from its regular files,
    /// given in the order of the scan. A file whose name is no container id
    /// is passed over; one that is a container by its name and does not
    /// decode ends the build. Where two records have one id, the one scanned
    /// later is kept.
    pub fn create_index(base_dir: &str, files: &Vec<ScannedFile>) -> (result: Result<
        HD2Index,
        BuildError,
    >)
        ensures
            match result {
                Ok(index) => scan_rows(scanned(files@)) matches Ok(rows) && index@ == (IndexView {
                    base_dir: base_dir@,
                    entries: table_of(rows),
                }),
                Err(error) => scan_rows(scanned(files@)) == Err::<Seq<Entry>, BuildError>(error),
            },
    {
        broadcast use vstd::std_specs::hash::group_hash_axioms;
        let ghost views = scanned(files@);
        let mut items: HashMap<u64, Entry> = HashMap::new();
        let ghost mut rows: Seq<Entry> = Seq::empty();
        assert(views.take(0) =~= Seq::empty());
        let mut i: usize = 0;
        while i < files.len()
            invariant
                i <= files.len(),
                views == scanned(files@),
                scan_rows(views.take(i as int)) == Ok::<Seq<Entry>, BuildError>(rows),
                items@ == table_of(rows),
            decreases files.len() - i,
        {
            let file = &files[i];
            proof {
                let next = views.take(i + 1);
                assert(next.drop_last() =~= views.take(i as int));
                assert(next.last() == file@);
            }
            match container_id(file.name.as_str()) {
                None => {
                    proof {
                        assert(rows + Seq::<Entry>::empty() =~= rows);
                    }
                },
                Some(file_id) => {
                    match Hd2DataFile::decode(file.bytes.as_slice()) {
                        Err(error) => {
                            proof {
                                lemma_scan_failure_stays(views, i as int);
                            }
                            return Err(BuildError { file: i, error });
                        },
                        Ok(decoded) => {
                            insert_records(&mut items, file_id, &decoded.data_headers, Ghost(rows));
                            proof {
                                rows = rows + entries_of(file_id, decoded.data_headers@);
                            }
                        },
                    }
                },
            }
            i += 1;
        }
        proof {
            assert(views.take(files.len() as int) =~= views);
            lemma_table_of(rows);
        }
        Ok(HD2Index { base_dir: base_dir.to_owned(), items })
    }
}

/// Once a prefix of a scan has failed, the whole scan fails in the same way.
pub proof fn lemma_scan_failure_stays(files: Seq<(Seq<char>, Seq<u8>)>, k: int)
    requires
        0 <= k < files.len(),
        scan_rows(files.take(k + 1)) is Err,
    ensures
        scan_rows(files) == scan_rows(files.take(k + 1)),
    decreases files.len() - k,
{
    if k + 1 == files.len() {
        assert(files.take(k + 1) =~= files);
    } else {
        assert(files.take(k + 2).drop_last() =~= files.take(k + 1));
        lemma_scan_failure_stays(files, k + 1);
    }
}

/// Why a read gives no bytes.
#[derive(Debug, Eq, PartialEq, Structural, Copy, Clone)]
pub enum ReadError {
    /// The index holds no asset of that id.
    NotFound,
    /// More bytes are asked for than the record says the tier holds.
    SizeExceeded,
    /// The file ends before the range that the record names.
    OutOfFile,
}

/// A byte range of one file: what a read has to fetch.
#[derive(Debug)]
pub struct ReadRequest {
    pub path: String,
    pub offset: u64,
    pub len: usize,
}

/// A read request as a mathematical value.
pub struct ReadRequestView {
    pub path: Seq<char>,
    pub offset: u64,
    pub len: usize,
}

impl View for ReadRequest {
    type V = ReadRequestView;

    open spec fn view(&self) -> ReadRequestView {
        ReadRequestView { path: self.path@, offset: self.offset, len: self.len }
    }
}

/// The range to fetch for the whole of what `tier` holds of the asset `id`.
pub open spec fn spec_read_request(index: IndexView, id: u64, tier: Tier) -> Result<
    ReadRequestView,
    ReadError,
> {
    if index.entries.contains_key(id) {
        let entry = index.entries[id];
        Ok(
            ReadRequestView {
                path: tier_path(index.base_dir, entry.file_id, tier),
                offset: entry.record.spec_tier_offset(tier),
                len: entry.record.spec_tier_size(tier) as usize,
            },
        )
    } else {
        Err(ReadError::NotFound)
    }
}

/// The range to fetch for the first `n` bytes of what `tier` holds of the
/// asset `id`.
pub open spec fn spec_read_request_n(index: IndexView, id: u64, tier: Tier, n: usize) -> Result<
    ReadRequestView,
    ReadError,
> {
    if !index.entries.contains_key(id) {
        Err(ReadError::NotFound)
    } else if n > index.entries[id].record.spec_tier_size(tier) {
        Err(ReadError::SizeExceeded)
    } else {
        let entry = index.entries[id];
        Ok(
            ReadRequestView {
                path: tier_path(index.base_dir, entry.file_id, tier),
                offset: entry.record.spec_tier_offset(tier),
                len: n,
            },
        )
    }
}

/// The `len` bytes of `file` from `offset` on, where the file holds them all.
pub open spec fn spec_read_range(file: Seq<u8>, offset: u64, len: usize) -> Result<
    Seq<u8>,
    ReadError,
> {
    if offset + len <= file.len() {
        Ok(file.subrange(offset as int, offset + len))
    } else {
        Err(ReadError::OutOfFile)
    }
}

/// What a read of the whole of a tier gives, `file` being the contents of
/// the file that the request names.
pub open spec fn spec_read(index: IndexView, id: u64, tier: Tier, file: Seq<u8>) -> Result<
    Seq<u8>,
    ReadError,
> {
    match spec_read_request(index, id, tier) {
        Ok(request) => spec_read_range(file, request.offset, request.len),
        Err(error) => Err(error),
    }
}

/// What a read of the first `n` bytes of a tier gives, `file` being the
/// contents of the file that the request names.
pub open spec fn spec_read_n(
    index: IndexView,
    id: u64,
    tier: Tier,
    n: usize,
    file: Seq<u8>,
) -> Result<Seq<u8>, ReadError> {
    match spec_read_request_n(index, id, tier, n) {
        Ok(request) => spec_read_range(file, request.offset, request.len),
        Err(error) => Err(error),
    }
}

/// Copies the `len` bytes of `file` from `offset` on.
pub fn read_range(file: &[u8], offset: u64, len: usize) -> (result: Result<Vec<u8>, ReadError>)
    ensures
        match result {
            Ok(bytes) => spec_read_range(file@, offset, len) == Ok::<Seq<u8>, ReadError>(bytes@),
            Err(error) => spec_read_range(file@, offset, len) == Err::<Seq<u8>, ReadError>(error),
        },
{
    let size: usize = file.len();
    if offset > size as u64 {
        return Err(ReadError::OutOfFile);
    }
    let start: usize = offset as usize;
    if len > size - start {
        return Err(ReadError::OutOfFile);
    }
    Ok(slice_to_vec(&file[start..start + len]))
}

impl HD2Index {
    /// The number of assets in the index.
    pub fn len(&self) -> (len: usize)
        ensures
            len == self@.entries.len(),
    {
        broadcast use vstd::std_specs::hash::group_hash_axioms;
        self.items.len()
    }

    /// The directory whose containers the index lists.
    pub fn base_dir(&self) -> (base_dir: &str)
        ensures
            base_dir@ == self@.base_dir,
    {
        self.base_dir.as_str()
    }

    /// The entry of the asset `id`, where the index holds one.
    pub fn get(&self, id: u64) -> (entry: Option<&Entry>)
        ensures
            match entry {
                Some(entry) => self@.entries.contains_key(id) && *entry == self@.entries[id]
                    && entry.record.id == id,
                None => !self@.entries.contains_key(id),
            },
    {
        broadcast use vstd::std_specs::hash::group_hash_axioms;
        proof {
            use_type_invariant(self);
        }
        self.items.get(&id)
    }

    /// The path of the primary container file with the given container id.
    pub fn resolve_data_file(&self, id: u64) -> (path: String)
        ensures
            path@ == tier_path(self@.base_dir, id, Tier::Data),
    {
        resolve_tier_file(self.base_dir.as_str(), id, Tier::Data)
    }

    /// The path of the stream file of the container with the given id.
    pub fn resolve_stream_file(&self, id: u64) -> (path: String)
        ensures
            path@ == tier_path(self@.base_dir, id, Tier::Stream),
    {
        resolve_tier_file(self.base_dir.as_str(), id, Tier::Stream)
    }

    /// The path of the gpu resources file of the container with the given id.
    pub fn resolve_gpu_file(&self, id: u64) -> (path: String)
        ensures
            path@ == tier_path(self@.base_dir, id, Tier::Gpu),
    {
        resolve_tier_file(self.base_dir.as_str(), id, Tier::Gpu)
    }

    /// The path of the file of `tier` that belongs to the asset `id`.
    pub fn resolve_tier_path(&self, id: u64, tier: Tier) -> (result: Result<String, ReadError>)
        ensures
            match result {
                Ok(path) => self@.entries.contains_key(id) && path@ == tier_path(
                    self@.base_dir,
                    self@.entries[id].file_id,
                    tier,
                ),
                Err(error) => !self@.entries.contains_key(id) && error == ReadError::NotFound,
            },
    {
        match self.get(id) {
            None => Err(ReadError::NotFound),
            Some(entry) => Ok(resolve_tier_file(self.base_dir.as_str(), entry.file_id, tier)),
        }
    }

    /// The ids of all assets in the index, each once, in no particular order.
    pub fn ids(&self) -> (ids: Vec<u64>)
        ensures
            ids@.to_set() == self@.entries.dom(),
            ids@.no_duplicates(),
            ids@.len() == self@.entries.len(),
    {
        broadcast use vstd::std_specs::hash::group_hash_axioms;
        let mut ids: Vec<u64> = Vec::new();
        for id in it: self.items.keys()
            invariant
                ids@.len() == it.index(),
                forall|j: int| 0 <= j < it.index() ==> ids@[j] == *it.seq()[j],
        {
            ids.push(*id);
        }
        assert(ids@ =~= self.items.keys().remaining().unref());
        ids
    }

    /// The range to fetch for the whole of what `tier` holds of the asset `id`.
    pub fn read_request(&self, id: u64, tier: Tier) -> (result: Result<ReadRequest, ReadError>)
        ensures
            match result {
                Ok(request) => spec_read_request(self@, id, tier) == Ok::<
                    ReadRequestView,
                    ReadError,
                >(request@),
                Err(error) => spec_read_request(self@, id, tier) == Err::<
                    ReadRequestView,
                    ReadError,
                >(error),
            },
    {
        match self.get(id) {
            None => Err(ReadError::NotFound),
            Some(entry) => Ok(
                ReadRequest {
                    path: resolve_tier_file(self.base_dir.as_str(), entry.file_id, tier),
                    offset: entry.record.tier_offset(tier),
                    len: entry.record.tier_size(tier) as usize,
                },
            ),
        }
    }

    /// The range to fetch for the first `n` bytes of what `tier` holds of
    /// the asset `id`.
    pub fn read_request_n(&self, id: u64, tier: Tier, n: usize) -> (result: Result<
        ReadRequest,
        ReadError,
    >)
        ensures
            match result {
                Ok(request) => spec_read_request_n(self@, id, tier, n) == Ok::<
                    ReadRequestView,
                    ReadError,
                >(request@),
                Err(error) => spec_read_request_n(self@, id, tier, n) == Err::<
                    ReadRequestView,
                    ReadError,
                >(error),
            },
    {
        match self.get(id) {
            None => Err(ReadError::NotFound),
            Some(entry) => {
                if n as u64 > entry.record.tier_size(tier) as u64 {
                    Err(ReadError::SizeExceeded)
                } else {
                    Ok(
                        ReadRequest {
                            path: resolve_tier_file(self.base_dir.as_str(), entry.file_id, tier),
                            offset: entry.record.tier_offset(tier),
                            len: n,
                        },
                    )
                }
            },
        }
    }
}

/// Copies the first `N` bytes of `file` from `offset` on.
pub fn read_array<const N: usize>(file: &[u8], offset: u64) -> (result: Result<[u8; N], ReadError>)
    ensures
        match result {
            Ok(bytes) => spec_read_range(file@, offset, N) == Ok::<Seq<u8>, ReadError>(bytes@),
            Err(error) => spec_read_range(file@, offset, N) == Err::<Seq<u8>, ReadError>(error),
        },
{
    let size: usize = file.len();
    if offset > size as u64 {
        return Err(ReadError::OutOfFile);
    }
    let start: usize = offset as usize;
    if N > size - start {
        return Err(ReadError::OutOfFile);
    }
    let mut bytes: [u8; N] = [0u8; N];
    let mut i: usize = 0;
    while i < N
        invariant
            i <= N,
            start + N <= file.len(),
            forall|j: int| 0 <= j < i ==> bytes@[j] == file@[start + j],
        decreases N - i,
    {
        bytes[i] = file[start + i];
        i += 1;
    }
    assert(bytes@ =~= file@.subrange(start as int, start + N));
    Ok(bytes)
}

impl HD2Index {
    /// Reads the whole of what `tier` holds of the asset `id` out of `file`,
    /// the contents of the file of that tier.
    pub fn read(&self, id: u64, tier: Tier, file: &[u8]) -> (result: Result<Vec<u8>, ReadError>)
        ensures
            match result {
                Ok(bytes) => spec_read(self@, id, tier, file@) == Ok::<Seq<u8>, ReadError>(bytes@),
                Err(error) => spec_read(self@, id, tier, file@) == Err::<Seq<u8>, ReadError>(
                    error,
                ),
            },
    {
        match self.get(id) {
            None => Err(ReadError::NotFound),
            Some(entry) => read_range(
                file,
                entry.record.tier_offset(tier),
                entry.record.tier_size(tier) as usize,
            ),
        }
    }

    /// Reads the first `N` bytes of what `tier` holds of the asset `id` out
    /// of `file`, the contents of the file of that tier. Fails where the
    /// record says that the tier holds fewer than `N` bytes.
    pub fn read_fixed_size<const N: usize>(&self, id: u64, tier: Tier, file: &[u8]) -> (result:
        Result<[u8; N], ReadError>)
        ensures
            match result {
                Ok(bytes) => spec_read_n(self@, id, tier, N, file@) == Ok::<Seq<u8>, ReadError>(
                    bytes@,
                ),
                Err(error) => spec_read_n(self@, id, tier, N, file@) == Err::<Seq<u8>, ReadError>(
                    error,
                ),
            },
    {
        match self.get(id) {
            None => Err(ReadError::NotFound),
            Some(entry) => {
                if N as u64 > entry.record.tier_size(tier) as u64 {
                    Err(ReadError::SizeExceeded)
                } else {
                    read_array::<N>(file, entry.record.tier_offset(tier))
                }
            },
        }
    }

    /// Reads the bytes of the asset `id` out of `file`, the contents of its
    /// container file.
    pub fn load_data_bytes(&self, id: u64, file: &[u8]) -> (result: Result<Vec<u8>, ReadError>)
        ensures
            match result {
                Ok(bytes) => spec_read(self@, id, Tier::Data, file@) == Ok::<Seq<u8>, ReadError>(
                    bytes@,
                ),
                Err(error) => spec_read(self@, id, Tier::Data, file@) == Err::<
                    Seq<u8>,
                    ReadError,
                >(error),
            },
    {
        self.read(id, Tier::Data, file)
    }

    /// Reads the first `N` bytes of the asset `id` out of `file`, the
    /// contents of its container file.
    pub fn load_n_data_bytes<const N: usize>(&self, id: u64, file: &[u8]) -> (result: Result<
        [u8; N],
        ReadError,
    >)
        ensures
            match result {
                Ok(bytes) => spec_read_n(self@, id, Tier::Data, N, file@) == Ok::<
                    Seq<u8>,
                    ReadError,
                >(bytes@),
                Err(error) => spec_read_n(self@, id, Tier::Data, N, file@) == Err::<
                    Seq<u8>,
                    ReadError,
                >(error),
            },
    {
        self.read_fixed_size::<N>(id, Tier::Data, file)
    }

    /// Reads the streamed bytes of the asset `id` out of `file`, the
    /// contents of the stream file of its container.
    pub fn load_stream_bytes(&self, id: u64, file: &[u8]) -> (result: Result<Vec<u8>, ReadError>)
        ensures
            match result {
                Ok(bytes) => spec_read(self@, id, Tier::Stream, file@) == Ok::<
                    Seq<u8>,
                    ReadError,
                >(bytes@),
                Err(error) => spec_read(self@, id, Tier::Stream, file@) == Err::<
                    Seq<u8>,
                    ReadError,
                >(error),
            },
    {
        self.read(id, Tier::Stream, file)
    }

    /// Reads the first `N` streamed bytes of the asset `id` out of `file`,
    /// the contents of the stream file of its container.
    pub fn load_n_stream_bytes<const N: usize>(&self, id: u64, file: &[u8]) -> (result: Result<
        [u8; N],
        ReadError,
    >)
        ensures
            match result {
                Ok(bytes) => spec_read_n(self@, id, Tier::Stream, N, file@) == Ok::<
                    Seq<u8>,
                    ReadError,
                >(bytes@),
                Err(error) => spec_read_n(self@, id, Tier::Stream, N, file@) == Err::<
                    Seq<u8>,
                    ReadError,
                >(error),
            },
    {
        self.read_fixed_size::<N>(id, Tier::Stream, file)
    }

    /// Reads the gpu bytes of the asset `id` out of `file`, the contents of
    /// the gpu resources file of its container.
    pub fn load_gpu_bytes(&self, id: u64, file: &[u8]) -> (result: Result<Vec<u8>, ReadError>)
        ensures
            match result {
                Ok(bytes) => spec_read(self@, id, Tier::Gpu, file@) == Ok::<Seq<u8>, ReadError>(
                    bytes@,
                ),
                Err(error) => spec_read(self@, id, Tier::Gpu, file@) == Err::<Seq<u8>, ReadError>(
                    error,
                ),
            },
    {
        self.read(id, Tier::Gpu, file)
    }

    /// Reads the first `N` gpu bytes of the asset `id` out of `file`, the
    /// contents of the gpu resources file of its container.
    pub fn load_n_gpu_bytes<const N: usize>(&self, id: u64, file: &[u8]) -> (result: Result<
        [u8; N],
        ReadError,
    >)
        ensures
            match result {
                Ok(bytes) => spec_read_n(self@, id, Tier::Gpu, N, file@) == Ok::<
                    Seq<u8>,
                    ReadError,
                >(bytes@),
                Err(error) => spec_read_n(self@, id, Tier::Gpu, N, file@) == Err::<
                    Seq<u8>,
                    ReadError,
                >(error),
            },
    {
        self.read_fixed_size::<N>(id, Tier::Gpu, file)
    }
}

impl vstd::std_specs::core::IndexSpecImpl<u64> for HD2Index {
    open spec fn index_req(&self, index: &u64) -> bool {
        self@.entries.contains_key(*index)
    }
}

impl Index<u64> for HD2Index {
    type Output = Entry;

    /// The entry of an asset that the index holds.
    fn index(&self, index: u64) -> (entry: &Entry)
        ensures
            *entry == self@.entries[index],
    {
        broadcast use vstd::std_specs::hash::group_hash_axioms;
        let found = self.items.get(&index);
        found.unwrap()
    }
}

/// Everything that an index holds, as plain values: what a snapshot file
/// keeps of it.
#[derive(Debug)]
pub struct IndexSnapshot {
    pub base_dir: String,
    pub entries: Vec<Entry>,
}

/// A snapshot as a mathematical value.
pub struct IndexSnapshotView {
    pub base_dir: Seq<char>,
    pub entries: Seq<Entry>,
}

impl View for IndexSnapshot {
    type V = IndexSnapshotView;

    open spec fn view(&self) -> IndexSnapshotView {
        IndexSnapshotView { base_dir: self.base_dir@, entries: self.entries@ }
    }
}

/// Whether `snapshot` lists the entries of `index` and nothing else, under
/// the same base directory.
pub open spec fn is_snapshot_of(snapshot: IndexSnapshotView, index: IndexView) -> bool {
    &&& snapshot.base_dir == index.base_dir
    &&& forall|k: int|
        0 <= k < snapshot.entries.len() ==> index.entries.contains_key(
            (#[trigger] snapshot.entries[k]).record.id,
        ) && index.entries[snapshot.entries[k].record.id] == snapshot.entries[k]
    &&& forall|id: u64| #[trigger]
        index.entries.contains_key(id) ==> exists|k: int|
            0 <= k < snapshot.entries.len() && #[trigger] snapshot.entries[k]
                == index.entries[id]
}

/// The index that a snapshot restores to.
pub open spec fn restored(snapshot: IndexSnapshotView) -> IndexView {
    IndexView { base_dir: snapshot.base_dir, entries: table_of(snapshot.entries) }
}

/// Restoring a snapshot of an index gives that index again: the same base
/// directory and the same entry under every id, so the same ids and the same
/// result of every read.
pub proof fn lemma_restore_of_snapshot(index: IndexView, snapshot: IndexSnapshotView)
    requires
        keyed_by_id(index.entries),
        is_snapshot_of(snapshot, index),
    ensures
        restored(snapshot) == index,
        restored(snapshot).entries.dom() == index.entries.dom(),
        forall|id: u64, tier: Tier, file: Seq<u8>|
            spec_read(restored(snapshot), id, tier, file) == spec_read(index, id, tier, file),
{
    let rows = snapshot.entries;
    lemma_table_of(rows);
    assert forall|id: u64| table_of(rows).contains_key(id) implies #[trigger]
        index.entries.contains_key(id) && index.entries[id] == table_of(rows)[id] by {
        let k = choose|k: int| 0 <= k < rows.len() && #[trigger] rows[k] == table_of(rows)[id];
        assert(index.entries.contains_key(rows[k].record.id));
    }
    assert forall|id: u64| #[trigger] index.entries.contains_key(id) implies table_of(
        rows,
    ).contains_key(id) by {
        let k = choose|k: int| 0 <= k < rows.len() && #[trigger] rows[k] == index.entries[id];
        assert(rows[k].record.id == id);
    }
    assert(table_of(rows) =~= index.entries);
}

/// Every id that the index lists resolves: a read request for it is owed in
/// each tier.
pub proof fn lemma_listed_ids_resolve(index: IndexView, ids: Seq<u64>, k: int, tier: Tier)
    requires
        ids.to_set() == index.entries.dom(),
        0 <= k < ids.len(),
    ensures
        spec_read_request(index, ids[k], tier) is Ok,
        forall|file: Seq<u8>| #[trigger]
            spec_read(index, ids[k], tier, file) != Err::<Seq<u8>, ReadError>(
                ReadError::NotFound,
            ),
{
    assert(ids.to_set().contains(ids[k]));
}

/// A read of the first `n` bytes fails with `SizeExceeded` exactly where `n`
/// is more than the record gives the tier; otherwise it gives the `n` bytes
/// at the tier's offset, which are the first `n` of what the whole read
/// gives.
pub proof fn lemma_read_n(index: IndexView, id: u64, tier: Tier, n: usize, file: Seq<u8>)
    requires
        index.entries.contains_key(id),
    ensures
        n > index.entries[id].record.spec_tier_size(tier) <==> spec_read_n(index, id, tier, n, file)
            == Err::<Seq<u8>, ReadError>(ReadError::SizeExceeded),
        spec_read_n(index, id, tier, n, file) matches Ok(bytes) ==> bytes == file.subrange(
            index.entries[id].record.spec_tier_offset(tier) as int,
            index.entries[id].record.spec_tier_offset(tier) + n,
        ),
        n <= index.entries[id].record.spec_tier_size(tier) ==> (spec_read(
            index,
            id,
            tier,
            file,
        ) matches Ok(whole) ==> spec_read_n(index, id, tier, n, file) == Ok::<Seq<u8>, ReadError>(
            whole.take(n as int),
        )),
{
    let offset = index.entries[id].record.spec_tier_offset(tier);
    let size = index.entries[id].record.spec_tier_size(tier);
    if n <= size && offset + size <= file.len() {
        assert(file.subrange(offset as int, offset + size).take(n as int) =~= file.subrange(
            offset as int,
            offset + n,
        ));
    }
}

impl HD2Index {
    /// Lists what the index holds, each entry once, in no particular order.
    pub fn snapshot(&self) -> (snapshot: IndexSnapshot)
        ensures
            is_snapshot_of(snapshot@, self@),
            restored(snapshot@) == self@,
            snapshot.entries@.len() == self@.entries.len(),
    {
        broadcast use vstd::std_specs::hash::group_hash_axioms;
        proof {
            use_type_invariant(self);
        }
        let ids = self.ids();
        let mut entries: Vec<Entry> = Vec::new();
        let mut i: usize = 0;
        while i < ids.len()
            invariant
                i <= ids.len(),
                ids@.to_set() == self.items@.dom(),
                entries@.len() == i,
                forall|j: int| 0 <= j < i ==> entries@[j] == self.items@[ids@[j]],
            decreases ids.len() - i,
        {
            assert(ids@.to_set().contains(ids@[i as int]));
            match self.items.get(&ids[i]) {
                Some(entry) => {
                    entries.push(*entry);
                },
                None => {
                    assert(false);
                },
            }
            i += 1;
        }
        let snapshot = IndexSnapshot { base_dir: self.base_dir.clone(), entries };
        proof {
            assert forall|k: int|
                0 <= k < snapshot@.entries.len() implies self@.entries.contains_key(
                (#[trigger] snapshot@.entries[k]).record.id,
            ) && self@.entries[snapshot@.entries[k].record.id] == snapshot@.entries[k] by {
                assert(ids@.to_set().contains(ids@[k]));
            }
            assert forall|id: u64| #[trigger] self@.entries.contains_key(id) implies exists|k: int|
                0 <= k < snapshot@.entries.len() && #[trigger] snapshot@.entries[k]
                    == self@.entries[id] by {
                assert(ids@.to_set().contains(id));
                let k = choose|k: int| 0 <= k < ids@.len() && ids@[k] == id;
                assert(snapshot@.entries[k] == self@.entries[id]);
            }
            lemma_restore_of_snapshot(self@, snapshot@);
        }
        snapshot
    }

    /// Makes the index that a snapshot lists. Where two entries have one id,
    /// the later one is kept.
    pub fn restore(snapshot: &IndexSnapshot) -> (index: HD2Index)
        ensures
            index@ == restored(snapshot@),
    {
        broadcast use vstd::std_specs::hash::group_hash_axioms;
        let mut items: HashMap<u64, Entry> = HashMap::new();
        let mut i: usize = 0;
        assert(snapshot.entries@.take(0) =~= Seq::empty());
        while i < snapshot.entries.len()
            invariant
                i <= snapshot.entries.len(),
                items@ == table_of(snapshot.entries@.take(i as int)),
            decreases snapshot.entries.len() - i,
        {
            let entry = snapshot.entries[i];
            proof {
                let next = snapshot.entries@.take(i + 1);
                assert(next.drop_last() =~= snapshot.entries@.take(i as int));
            }
            items.insert(entry.record.id, entry);
            i += 1;
        }
        proof {
            assert(snapshot.entries@.take(snapshot.entries.len() as int) =~= snapshot.entries@);
            lemma_table_of(snapshot.entries@);
        }
        HD2Index { base_dir: snapshot.base_dir.clone(), items }
    }
}

} // verus!
