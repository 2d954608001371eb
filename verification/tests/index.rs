use hd2re::index::{
    BuildError, Entry, HD2Index, IndexSnapshot, ReadError, ReadRequest, ScannedFile,
};
use hd2re::parse::{DataRecord, DataType, DecodeError, Tier, TypeHeader};

/// Lays out a container with one type directory entry and the given records.
fn container(records: &[DataRecord]) -> Vec<u8> {
    let types = [TypeHeader {
        id: DataType::texture,
        data_count: records.len() as u64,
        size: 0,
        data_header_size: 0,
    }];
    let records_start = 72 + 32 * types.len();
    let mut bytes = vec![0u8; records_start + 80 * records.len()];
    for (j, record) in records.iter().enumerate() {
        let at = records_start + 80 * j;
        bytes[at..at + 8].copy_from_slice(&record.id.to_le_bytes());
        bytes[at + 8..at + 16].copy_from_slice(&record.type_id.tag().to_le_bytes());
        bytes[at + 16..at + 24].copy_from_slice(&record.offset.to_le_bytes());
        bytes[at + 24..at + 28].copy_from_slice(&record.stream_offset.to_le_bytes());
        bytes[at + 32..at + 40].copy_from_slice(&record.gpu_offset.to_le_bytes());
        bytes[at + 56..at + 60].copy_from_slice(&record.data_size.to_le_bytes());
        bytes[at + 60..at + 64].copy_from_slice(&record.stream_size.to_le_bytes());
        bytes[at + 64..at + 68].copy_from_slice(&record.gpu_size.to_le_bytes());
        bytes[at + 76..at + 80].copy_from_slice(&record.index.to_le_bytes());
    }
    for (i, header) in types.iter().enumerate() {
        let at = 80 + 32 * i;
        bytes[at..at + 8].copy_from_slice(&header.id.tag().to_le_bytes());
        bytes[at + 8..at + 16].copy_from_slice(&header.data_count.to_le_bytes());
    }
    bytes[0..4].copy_from_slice(&[0x11, 0x00, 0x00, 0xF0]);
    bytes[4..8].copy_from_slice(&(types.len() as u32).to_le_bytes());
    bytes[76..80].copy_from_slice(&(records.len() as u32).to_le_bytes());
    bytes
}

fn record(id: u64, offset: u64, data_size: u32) -> DataRecord {
    DataRecord {
        id,
        type_id: DataType::texture,
        offset,
        stream_offset: 0,
        gpu_offset: 0,
        data_size,
        stream_size: 0,
        gpu_size: 0,
        index: 0,
    }
}

fn tiered(id: u64) -> DataRecord {
    DataRecord {
        id,
        type_id: DataType::wwise_stream,
        offset: 4,
        stream_offset: 2,
        gpu_offset: 6,
        data_size: 8,
        stream_size: 5,
        gpu_size: 3,
        index: 11,
    }
}

fn file(name: &str, bytes: Vec<u8>) -> ScannedFile {
    ScannedFile { name: String::from(name), bytes }
}

fn sorted(mut ids: Vec<u64>) -> Vec<u64> {
    ids.sort();
    ids
}

fn two_containers() -> HD2Index {
    let files = vec![
        file("00000000000000a1", container(&[record(1, 0, 4), tiered(2)])),
        file("00000000000000a2", container(&[record(3, 16, 0)])),
    ];
    HD2Index::create_index("data", &files).unwrap()
}

#[test]
fn index_keeps_its_base_directory() {
    assert_eq!(two_containers().base_dir(), "data");
    assert_eq!(HD2Index::create_index("", &Vec::new()).unwrap().base_dir(), "");
    assert_eq!(HD2Index::restore(&two_containers().snapshot()).base_dir(), "data");
}

#[test]
fn index_of_an_empty_directory_is_empty() {
    let index = HD2Index::create_index("data", &Vec::new()).unwrap();
    assert_eq!(index.len(), 0);
    assert!(index.ids().is_empty());
    assert!(index.get(1).is_none());
}

#[test]
fn index_holds_every_record_under_its_id() {
    let index = two_containers();
    assert_eq!(index.len(), 3);
    assert_eq!(sorted(index.ids()), vec![1, 2, 3]);
    assert_eq!(index.get(1), Some(&Entry { file_id: 0xa1, record: record(1, 0, 4) }));
    assert_eq!(index.get(2), Some(&Entry { file_id: 0xa1, record: tiered(2) }));
    assert_eq!(index.get(3), Some(&Entry { file_id: 0xa2, record: record(3, 16, 0) }));
    assert_eq!(index.get(4), None);
}

#[test]
fn index_operator_gives_the_entry() {
    let index = two_containers();
    assert_eq!(index[2], Entry { file_id: 0xa1, record: tiered(2) });
    assert_eq!(index[3].file_id, 0xa2);
}

#[test]
fn same_id_in_two_containers_keeps_the_later_one() {
    let files = vec![
        file("00000000000000a1", container(&[record(7, 100, 4)])),
        file("00000000000000a2", container(&[record(7, 200, 4)])),
    ];
    let index = HD2Index::create_index("data", &files).unwrap();
    assert_eq!(index.len(), 1);
    assert_eq!(index.ids(), vec![7]);
    assert_eq!(index.get(7), Some(&Entry { file_id: 0xa2, record: record(7, 200, 4) }));
    let files = vec![
        file("00000000000000a2", container(&[record(7, 200, 4)])),
        file("00000000000000a1", container(&[record(7, 100, 4)])),
    ];
    let index = HD2Index::create_index("data", &files).unwrap();
    assert_eq!(index.len(), 1);
    assert_eq!(index.get(7), Some(&Entry { file_id: 0xa1, record: record(7, 100, 4) }));
}

#[test]
fn same_id_twice_in_one_container_keeps_the_later_one() {
    let files =
        vec![file("00000000000000a1", container(&[record(7, 100, 4), record(7, 300, 8)]))];
    let index = HD2Index::create_index("data", &files).unwrap();
    assert_eq!(index.len(), 1);
    assert_eq!(index.get(7), Some(&Entry { file_id: 0xa1, record: record(7, 300, 8) }));
}

#[test]
fn companion_and_other_files_are_passed_over() {
    let files = vec![
        file("00000000000000a1.stream", vec![1, 2, 3]),
        file("00000000000000a1", container(&[record(1, 0, 4)])),
        file("00000000000000a1.gpu_resources", Vec::new()),
        file("settings.ini", vec![0x11, 0x00, 0x00, 0xF0]),
        file("readme", container(&[record(9, 0, 4)])),
        file("", container(&[record(10, 0, 4)])),
    ];
    let index = HD2Index::create_index("data", &files).unwrap();
    assert_eq!(index.ids(), vec![1]);
}

#[test]
fn container_that_does_not_decode_ends_the_build() {
    let mut bad = container(&[record(2, 0, 4)]);
    bad[0] = 0;
    let files = vec![
        file("00000000000000a1", container(&[record(1, 0, 4)])),
        file("notes.txt", vec![0; 3]),
        file("00000000000000a2", bad),
        file("00000000000000a3", Vec::new()),
    ];
    let error = HD2Index::create_index("data", &files).err().unwrap();
    assert_eq!(error, BuildError { file: 2, error: DecodeError::BadMagic });
}

#[test]
fn truncated_container_ends_the_build() {
    let whole = container(&[record(1, 0, 4)]);
    let files = vec![file("00000000000000a1", Vec::from(&whole[..whole.len() - 1]))];
    let error = HD2Index::create_index("data", &files).err().unwrap();
    assert_eq!(error, BuildError { file: 0, error: DecodeError::Truncated });
}

#[test]
fn paths_lie_below_the_base_directory() {
    let index = two_containers();
    assert_eq!(index.resolve_data_file(0xa1), "data/00000000000000a1");
    assert_eq!(index.resolve_stream_file(0xa1), "data/00000000000000a1.stream");
    assert_eq!(index.resolve_gpu_file(0xa1), "data/00000000000000a1.gpu_resources");
    assert_eq!(index.resolve_data_file(u64::MAX), "data/ffffffffffffffff");
}

#[test]
fn paths_below_a_base_directory_that_ends_in_a_slash() {
    let index = HD2Index::create_index("/games/data/", &Vec::new()).unwrap();
    assert_eq!(index.resolve_stream_file(1), "/games/data/0000000000000001.stream");
    let index = HD2Index::create_index("", &Vec::new()).unwrap();
    assert_eq!(index.resolve_gpu_file(1), "0000000000000001.gpu_resources");
}

#[test]
fn request_names_the_file_and_range_of_each_tier() {
    let index = two_containers();
    let ReadRequest { path, offset, len } = index.read_request(2, Tier::Data).unwrap();
    assert_eq!((path.as_str(), offset, len), ("data/00000000000000a1", 4, 8));
    let ReadRequest { path, offset, len } = index.read_request(2, Tier::Stream).unwrap();
    assert_eq!((path.as_str(), offset, len), ("data/00000000000000a1.stream", 2, 5));
    let ReadRequest { path, offset, len } = index.read_request(2, Tier::Gpu).unwrap();
    assert_eq!((path.as_str(), offset, len), ("data/00000000000000a1.gpu_resources", 6, 3));
    let ReadRequest { path, offset, len } = index.read_request(3, Tier::Data).unwrap();
    assert_eq!((path.as_str(), offset, len), ("data/00000000000000a2", 16, 0));
}

#[test]
fn request_for_an_unknown_id_is_not_found() {
    let index = two_containers();
    assert_eq!(index.read_request(4, Tier::Data).err(), Some(ReadError::NotFound));
    assert_eq!(index.read_request_n(4, Tier::Stream, 0).err(), Some(ReadError::NotFound));
}

#[test]
fn request_for_a_prefix_names_its_length() {
    let index = two_containers();
    let ReadRequest { path, offset, len } = index.read_request_n(2, Tier::Stream, 4).unwrap();
    assert_eq!((path.as_str(), offset, len), ("data/00000000000000a1.stream", 2, 4));
    assert_eq!(index.read_request_n(2, Tier::Stream, 5).unwrap().len, 5);
    assert_eq!(index.read_request_n(2, Tier::Stream, 6).err(), Some(ReadError::SizeExceeded));
    assert_eq!(index.read_request_n(2, Tier::Gpu, 4).err(), Some(ReadError::SizeExceeded));
    assert_eq!(index.read_request_n(2, Tier::Data, 8).unwrap().len, 8);
}

#[test]
fn every_listed_id_resolves() {
    let index = two_containers();
    for id in index.ids() {
        assert!(index.get(id).is_some());
        for tier in [Tier::Data, Tier::Stream, Tier::Gpu] {
            assert!(index.read_request(id, tier).is_ok());
            assert_ne!(index.read(id, tier, &[]).err(), Some(ReadError::NotFound));
        }
    }
}

#[test]
fn reads_the_payload_of_a_decoded_record() {
    let mut bytes = vec![0u8; 152];
    bytes[0..4].copy_from_slice(&[0x11, 0x00, 0x00, 0xF0]);
    bytes[76..80].copy_from_slice(&1u32.to_le_bytes());
    bytes[72..76].copy_from_slice(&0x1234u32.to_le_bytes());
    bytes[80..88].copy_from_slice(&0xCD4238C6A0C69E32u64.to_le_bytes());
    bytes[128..132].copy_from_slice(&16u32.to_le_bytes());
    let id = 0x0000_0001_0000_1234;
    let files = vec![file("00000000000000a1", bytes.clone())];
    let index = HD2Index::create_index("data", &files).unwrap();
    assert_eq!(index.ids(), vec![id]);
    assert_eq!(index[id].record.type_id, DataType::texture);
    assert_eq!(index.read(id, Tier::Data, &bytes).unwrap(), Vec::from(&bytes[..16]));
    let payload: Vec<u8> = (100..116).collect();
    assert_eq!(index.load_data_bytes(id, &payload).unwrap(), payload);
    let mut longer = payload.clone();
    longer.extend_from_slice(&[0xEE; 10]);
    assert_eq!(index.load_data_bytes(id, &longer).unwrap(), payload);
}

#[test]
fn reads_the_range_of_each_tier() {
    let index = two_containers();
    let contents: Vec<u8> = (0..32).collect();
    assert_eq!(index.read(2, Tier::Data, &contents).unwrap(), vec![4, 5, 6, 7, 8, 9, 10, 11]);
    assert_eq!(index.read(2, Tier::Stream, &contents).unwrap(), vec![2, 3, 4, 5, 6]);
    assert_eq!(index.read(2, Tier::Gpu, &contents).unwrap(), vec![6, 7, 8]);
    assert_eq!(index.load_data_bytes(2, &contents).unwrap(), vec![4, 5, 6, 7, 8, 9, 10, 11]);
    assert_eq!(index.load_stream_bytes(2, &contents).unwrap(), vec![2, 3, 4, 5, 6]);
    assert_eq!(index.load_gpu_bytes(2, &contents).unwrap(), vec![6, 7, 8]);
}

#[test]
fn tier_of_no_bytes_reads_as_nothing() {
    let index = two_containers();
    let contents: Vec<u8> = (0..32).collect();
    assert_eq!(index.read(3, Tier::Data, &contents).unwrap(), Vec::<u8>::new());
    assert_eq!(index.read(1, Tier::Stream, &[]).unwrap(), Vec::<u8>::new());
    assert_eq!(index.read(3, Tier::Data, &contents[..16]).unwrap(), Vec::<u8>::new());
}

#[test]
fn read_of_an_unknown_id_is_not_found() {
    let index = two_containers();
    let contents = [0u8; 32];
    assert_eq!(index.read(4, Tier::Data, &contents).err(), Some(ReadError::NotFound));
    assert_eq!(index.load_data_bytes(4, &contents).err(), Some(ReadError::NotFound));
    assert_eq!(index.load_stream_bytes(4, &contents).err(), Some(ReadError::NotFound));
    assert_eq!(index.load_gpu_bytes(4, &contents).err(), Some(ReadError::NotFound));
    assert_eq!(index.load_n_data_bytes::<1>(4, &contents).err(), Some(ReadError::NotFound));
    assert_eq!(index.load_n_stream_bytes::<1>(4, &contents).err(), Some(ReadError::NotFound));
    assert_eq!(index.load_n_gpu_bytes::<1>(4, &contents).err(), Some(ReadError::NotFound));
}

#[test]
fn read_past_the_end_of_the_file_fails() {
    let index = two_containers();
    let contents: Vec<u8> = (0..32).collect();
    assert_eq!(index.read(2, Tier::Data, &contents[..12]).unwrap().len(), 8);
    assert_eq!(index.read(2, Tier::Data, &contents[..11]).err(), Some(ReadError::OutOfFile));
    assert_eq!(index.read(2, Tier::Data, &[]).err(), Some(ReadError::OutOfFile));
    assert_eq!(index.read(3, Tier::Data, &contents[..15]).err(), Some(ReadError::OutOfFile));
    assert_eq!(
        index.read_fixed_size::<4>(2, Tier::Data, &contents[..7]).err(),
        Some(ReadError::OutOfFile)
    );
}

#[test]
fn offset_beyond_any_file_fails() {
    let records = [record(1, u64::MAX, 4), record(2, u64::MAX, 0)];
    let files = vec![file("00000000000000a1", container(&records))];
    let index = HD2Index::create_index("data", &files).unwrap();
    assert_eq!(index.read(1, Tier::Data, &[0; 8]).err(), Some(ReadError::OutOfFile));
    assert_eq!(index.read(2, Tier::Data, &[0; 8]).err(), Some(ReadError::OutOfFile));
    assert_eq!(
        index.read_fixed_size::<0>(2, Tier::Data, &[0; 8]).err(),
        Some(ReadError::OutOfFile)
    );
}

#[test]
fn fixed_size_read_gives_the_first_bytes() {
    let index = two_containers();
    let contents: Vec<u8> = (0..32).collect();
    let whole = index.read(2, Tier::Data, &contents).unwrap();
    assert_eq!(index.read_fixed_size::<4>(2, Tier::Data, &contents).unwrap(), [4, 5, 6, 7]);
    assert_eq!(index.read_fixed_size::<4>(2, Tier::Data, &contents).unwrap()[..], whole[..4]);
    assert_eq!(index.read_fixed_size::<8>(2, Tier::Data, &contents).unwrap()[..], whole[..]);
    assert_eq!(index.read_fixed_size::<0>(2, Tier::Data, &contents).unwrap(), [0u8; 0]);
    assert_eq!(index.load_n_data_bytes::<2>(2, &contents).unwrap(), [4, 5]);
    assert_eq!(index.load_n_stream_bytes::<5>(2, &contents).unwrap(), [2, 3, 4, 5, 6]);
    assert_eq!(index.load_n_gpu_bytes::<3>(2, &contents).unwrap(), [6, 7, 8]);
}

#[test]
fn fixed_size_read_beyond_the_tier_fails() {
    let index = two_containers();
    let contents: Vec<u8> = (0..32).collect();
    assert_eq!(
        index.read_fixed_size::<9>(2, Tier::Data, &contents).err(),
        Some(ReadError::SizeExceeded)
    );
    assert_eq!(index.load_n_data_bytes::<9>(2, &contents).err(), Some(ReadError::SizeExceeded));
    assert_eq!(index.load_n_stream_bytes::<6>(2, &contents).err(), Some(ReadError::SizeExceeded));
    assert_eq!(index.load_n_gpu_bytes::<4>(2, &contents).err(), Some(ReadError::SizeExceeded));
    assert_eq!(index.load_n_data_bytes::<1>(3, &contents).err(), Some(ReadError::SizeExceeded));
    assert_eq!(index.load_n_data_bytes::<9>(2, &[]).err(), Some(ReadError::SizeExceeded));
}

#[test]
fn fixed_size_read_goes_by_the_size_of_its_own_tier() {
    let index = two_containers();
    let contents: Vec<u8> = (0..32).collect();
    assert_eq!(index.load_n_data_bytes::<8>(2, &contents).unwrap(), [4, 5, 6, 7, 8, 9, 10, 11]);
    assert_eq!(index.load_n_data_bytes::<4>(1, &contents).unwrap(), [0, 1, 2, 3]);
}

#[test]
fn snapshot_lists_every_entry_once() {
    let index = two_containers();
    let IndexSnapshot { base_dir, mut entries } = index.snapshot();
    assert_eq!(base_dir, "data");
    entries.sort_by_key(|entry| entry.record.id);
    assert_eq!(
        entries,
        vec![
            Entry { file_id: 0xa1, record: record(1, 0, 4) },
            Entry { file_id: 0xa1, record: tiered(2) },
            Entry { file_id: 0xa2, record: record(3, 16, 0) },
        ]
    );
}

#[test]
fn restored_snapshot_is_the_index_again() {
    let index = two_containers();
    let restored = HD2Index::restore(&index.snapshot());
    assert_eq!(restored.len(), index.len());
    assert_eq!(sorted(restored.ids()), sorted(index.ids()));
    let contents: Vec<u8> = (0..32).collect();
    for id in index.ids() {
        assert_eq!(restored.get(id), index.get(id));
        for tier in [Tier::Data, Tier::Stream, Tier::Gpu] {
            assert_eq!(restored.read(id, tier, &contents), index.read(id, tier, &contents));
            assert_eq!(
                restored.read_request(id, tier).unwrap().path,
                index.read_request(id, tier).unwrap().path
            );
        }
    }
    assert_eq!(restored.resolve_data_file(1), index.resolve_data_file(1));
}

#[test]
fn restore_keeps_the_later_of_two_entries() {
    let snapshot = IndexSnapshot {
        base_dir: String::from("d"),
        entries: vec![
            Entry { file_id: 1, record: record(7, 100, 4) },
            Entry { file_id: 2, record: record(8, 0, 0) },
            Entry { file_id: 3, record: record(7, 200, 4) },
        ],
    };
    let index = HD2Index::restore(&snapshot);
    assert_eq!(index.len(), 2);
    assert_eq!(index.get(7), Some(&Entry { file_id: 3, record: record(7, 200, 4) }));
    assert_eq!(index.resolve_data_file(3), "d/0000000000000003");
}

#[test]
fn restored_empty_snapshot_is_empty() {
    let index = HD2Index::restore(&IndexSnapshot { base_dir: String::new(), entries: Vec::new() });
    assert_eq!(index.len(), 0);
    assert!(index.snapshot().entries.is_empty());
}

#[test]
fn tier_path_of_an_asset_names_its_container() {
    let index = two_containers();
    assert_eq!(index.resolve_tier_path(3, Tier::Data).unwrap(), "data/00000000000000a2");
    assert_eq!(index.resolve_tier_path(2, Tier::Stream).unwrap(), "data/00000000000000a1.stream");
    assert_eq!(
        index.resolve_tier_path(1, Tier::Gpu).unwrap(),
        "data/00000000000000a1.gpu_resources"
    );
    assert_eq!(index.resolve_tier_path(4, Tier::Data).err(), Some(ReadError::NotFound));
}
