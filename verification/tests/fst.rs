use gcimage::{
    find_file, list_entries, read_entry, read_root_entry, DirData, EntryType, FileData,
    FilesystemEntry, ImageError, RootDirectory, FILE_ENTRY_SIZE,
};

const FST: u32 = 0x20;

fn record(flag: u8, name_ofst: u32, first: u32, second: u32) -> [u8; 12] {
    let mut r = [0u8; 12];
    r[0] = flag;
    r[1..4].copy_from_slice(&name_ofst.to_be_bytes()[1..4]);
    r[4..8].copy_from_slice(&first.to_be_bytes());
    r[8..12].copy_from_slice(&second.to_be_bytes());
    r
}

/// A table at `FST` with the root, a directory `opening.bnr`, a file
/// `opening.bnr`, a file `boot.bin` and a second file `opening.bnr`.
fn sample_table() -> Vec<u8> {
    let mut data = vec![0xAAu8; FST as usize];
    let names: &[u8] = b"\0opening.bnr\0boot.bin\0";
    data.extend_from_slice(&record(1, 0, 0, 5));
    data.extend_from_slice(&record(1, 1, 0, 3));
    data.extend_from_slice(&record(0, 1, 0x1000, 6496));
    data.extend_from_slice(&record(0, 13, 0x4000, 77));
    data.extend_from_slice(&record(0, 1, 0x9000, 1));
    data.extend_from_slice(names);
    data
}

fn file(name: &str, file_offset: u32, file_length: u32) -> FilesystemEntry {
    FilesystemEntry {
        filename: name.to_string(),
        entry: EntryType::File(FileData { file_offset, file_length }),
    }
}

fn dir(name: &str, parent_offset: u32, next_offset: u32) -> FilesystemEntry {
    FilesystemEntry {
        filename: name.to_string(),
        entry: EntryType::Directory(DirData { parent_offset, next_offset }),
    }
}

#[test]
fn record_length() {
    assert_eq!(FILE_ENTRY_SIZE, 12);
}

#[test]
fn root_entry_counts_the_records() {
    let data = sample_table();
    let root = read_root_entry(&data, FST).unwrap();
    assert_eq!(root, RootDirectory { num_entries: 5 });
    assert_eq!(root.string_table_ofst(), 60);
}

#[test]
fn string_table_offset_does_not_wrap() {
    let root = RootDirectory { num_entries: u32::MAX };
    assert_eq!(root.string_table_ofst(), 51_539_607_540);
}

#[test]
fn root_entry_must_be_a_directory() {
    let mut data = sample_table();
    data[FST as usize] = 0;
    assert_eq!(
        read_root_entry(&data, FST),
        Err(ImageError::InvalidHeader("invalid root directory entry".to_string()))
    );
    data[FST as usize] = 2;
    assert_eq!(
        read_root_entry(&data, FST),
        Err(ImageError::InvalidHeader("invalid root directory entry".to_string()))
    );
}

#[test]
fn root_entry_beyond_the_image_is_an_io_error() {
    let data = sample_table();
    let len = data.len() as u32;
    assert_eq!(read_root_entry(&data, len - 11), Err(ImageError::IOError));
    assert_eq!(read_root_entry(&data, len), Err(ImageError::IOError));
    assert_eq!(read_root_entry(&data, u32::MAX), Err(ImageError::IOError));
}

#[test]
fn entry_of_a_file() {
    let data = sample_table();
    let names = FST as u64 + 60;
    assert_eq!(read_entry(&data, FST as u64 + 36, names), Ok(file("boot.bin", 0x4000, 77)));
}

#[test]
fn entry_of_a_directory() {
    let data = sample_table();
    let names = FST as u64 + 60;
    assert_eq!(read_entry(&data, FST as u64 + 12, names), Ok(dir("opening.bnr", 0, 3)));
}

#[test]
fn any_non_zero_flag_is_a_directory() {
    let mut data = sample_table();
    data[FST as usize + 36] = 0x80;
    let names = FST as u64 + 60;
    assert_eq!(read_entry(&data, FST as u64 + 36, names), Ok(dir("boot.bin", 0x4000, 77)));
}

#[test]
fn entry_beyond_the_image_is_an_io_error() {
    let data = sample_table();
    let len = data.len() as u64;
    assert_eq!(read_entry(&data, len - 11, 0), Err(ImageError::IOError));
    assert_eq!(read_entry(&data, u64::MAX, 0), Err(ImageError::IOError));
}

#[test]
fn name_beyond_the_image_is_empty() {
    let data = sample_table();
    assert_eq!(read_entry(&data, FST as u64 + 36, 1 << 40), Ok(file("", 0x4000, 77)));
    assert_eq!(read_entry(&data, FST as u64 + 36, u64::MAX), Ok(file("", 0x4000, 77)));
}

#[test]
fn name_that_is_not_utf8_is_refused() {
    let mut data = sample_table();
    let names = FST as usize + 60;
    data[names + 14] = 0xFF;
    assert_eq!(
        read_entry(&data, FST as u64 + 36, names as u64),
        Err(ImageError::InvalidHeader("malformed file name".to_string()))
    );
}

#[test]
fn name_offset_uses_all_three_bytes() {
    let mut data = vec![0u8; 0x01_0210];
    data[0..12].copy_from_slice(&record(0, 0x01_0203, 1, 2));
    data[0x01_0203..0x01_0206].copy_from_slice(b"abc");
    assert_eq!(read_entry(&data, 0, 0), Ok(file("abc", 1, 2)));
}

#[test]
fn find_passes_over_a_directory_of_the_same_name() {
    let data = sample_table();
    let root = read_root_entry(&data, FST).unwrap();
    assert_eq!(find_file(&data, FST, &root, "opening.bnr"), Ok(file("opening.bnr", 0x1000, 6496)));
}

#[test]
fn find_gives_the_first_of_two_files() {
    let mut data = sample_table();
    data[FST as usize + 12] = 0;
    let root = read_root_entry(&data, FST).unwrap();
    assert_eq!(find_file(&data, FST, &root, "opening.bnr"), Ok(file("opening.bnr", 0, 3)));
}

#[test]
fn find_another_file() {
    let data = sample_table();
    let root = read_root_entry(&data, FST).unwrap();
    assert_eq!(find_file(&data, FST, &root, "boot.bin"), Ok(file("boot.bin", 0x4000, 77)));
}

#[test]
fn find_compares_the_whole_name() {
    let data = sample_table();
    let root = read_root_entry(&data, FST).unwrap();
    for name in ["boot", "boot.bin ", "BOOT.BIN", "opening", "missing"] {
        assert_eq!(
            find_file(&data, FST, &root, name),
            Err(ImageError::FileNotFound(name.to_string()))
        );
    }
}

#[test]
fn find_never_gives_a_directory() {
    let mut data = sample_table();
    for i in [2usize, 4] {
        data[FST as usize + 12 * i] = 1;
    }
    let root = read_root_entry(&data, FST).unwrap();
    assert_eq!(
        find_file(&data, FST, &root, "opening.bnr"),
        Err(ImageError::FileNotFound("opening.bnr".to_string()))
    );
    assert_eq!(find_file(&data, FST, &root, ""), Err(ImageError::FileNotFound(String::new())));
}

#[test]
fn find_in_an_empty_table() {
    let data = sample_table();
    let root = RootDirectory { num_entries: 0 };
    assert_eq!(
        find_file(&data, FST, &root, "boot.bin"),
        Err(ImageError::FileNotFound("boot.bin".to_string()))
    );
}

#[test]
fn find_stops_at_a_record_beyond_the_image() {
    let mut data = sample_table();
    data.truncate(FST as usize + 40);
    let root = RootDirectory { num_entries: 5 };
    assert_eq!(find_file(&data, FST, &root, "boot.bin"), Err(ImageError::IOError));
}

#[test]
fn find_stops_at_a_name_that_is_not_utf8() {
    let mut data = sample_table();
    let names = FST as usize + 60;
    data[names + 3] = 0xC0;
    let root = read_root_entry(&data, FST).unwrap();
    assert_eq!(
        find_file(&data, FST, &root, "boot.bin"),
        Err(ImageError::InvalidHeader("malformed file name".to_string()))
    );
}

#[test]
fn listing_has_one_entry_for_each_record() {
    let data = sample_table();
    let tree = list_entries(&data, FST).unwrap();
    assert_eq!(tree.len(), 5);
    assert_eq!(*tree.get(0), dir("", 0, 5));
    assert_eq!(*tree.get(3), file("boot.bin", 0x4000, 77));
    let entries: Vec<FilesystemEntry> = tree.into_iter().collect();
    assert_eq!(
        entries,
        vec![
            dir("", 0, 5),
            dir("opening.bnr", 0, 3),
            file("opening.bnr", 0x1000, 6496),
            file("boot.bin", 0x4000, 77),
            file("opening.bnr", 0x9000, 1),
        ]
    );
}

#[test]
fn listing_classes_follow_the_flags() {
    let data = sample_table();
    let entries: Vec<FilesystemEntry> = list_entries(&data, FST).unwrap().into_iter().collect();
    for (i, entry) in entries.iter().enumerate() {
        let flag = data[FST as usize + 12 * i];
        assert_eq!(matches!(entry.entry, EntryType::File(_)), flag == 0);
        assert_eq!(matches!(entry.entry, EntryType::Directory(_)), flag != 0);
    }
}

#[test]
fn listing_of_a_root_alone() {
    let mut data = vec![0u8; 8];
    data.extend_from_slice(&record(1, 0, 0, 1));
    let entries: Vec<FilesystemEntry> = list_entries(&data, 8).unwrap().into_iter().collect();
    assert_eq!(entries, vec![dir("", 0, 1)]);
}

#[test]
fn listing_of_no_records() {
    let mut data = vec![0u8; 8];
    data.extend_from_slice(&record(1, 0, 0, 0));
    let tree = list_entries(&data, 8).unwrap();
    assert_eq!(tree.len(), 0);
    assert_eq!(tree.into_iter().count(), 0);
}

#[test]
fn listing_needs_a_root_directory() {
    let mut data = sample_table();
    data[FST as usize] = 0;
    assert_eq!(
        list_entries(&data, FST),
        Err(ImageError::InvalidHeader("invalid root directory entry".to_string()))
    );
}

#[test]
fn listing_stops_at_a_record_beyond_the_image() {
    let mut data = sample_table();
    data.truncate(FST as usize + 40);
    assert_eq!(list_entries(&data, FST), Err(ImageError::IOError));
    assert_eq!(list_entries(&data, 0x1000), Err(ImageError::IOError));
}

#[test]
fn listing_is_the_same_at_each_call() {
    let data = sample_table();
    assert_eq!(list_entries(&data, FST), list_entries(&data, FST));
}
