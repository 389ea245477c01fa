//! The file system table: a run of 12-byte records, the first of which is
//! the root directory, followed by the names that the records point to.

use vstd::prelude::*;
use vstd::utf8::{decode_utf8, valid_utf8};
use crate::bytes::{
    be24, be32, block, c_string, in_bounds, read_exact_at, read_string, spec_read, spec_string,
    u8_arr_to_u24, u8_arr_to_u32,
};
use crate::error::{view_result, Fault, ImageError, BAD_FILE_NAME, BAD_ROOT_ENTRY};
use vstd::slice::slice_subrange;
use vstd::std_specs::iter::IteratorSpec;

verus! {

/// Length of one record of the table.
pub const FILE_ENTRY_SIZE: usize = 0x0C;

/// Where a file lies in the image, and how long it is.
#[derive(Debug, Clone, Copy, PartialEq, Eq, Structural)]
pub struct FileData {
    pub file_offset: u32,
    pub file_length: u32,
}

/// The record of a directory's parent, and the record after its last entry.
#[derive(Debug, Clone, Copy, PartialEq, Eq, Structural)]
pub struct DirData {
    pub parent_offset: u32,
    pub next_offset: u32,
}

/// What a record describes: a file or a directory.
#[derive(Debug, Clone, Copy, PartialEq, Eq, Structural)]
pub enum EntryType {
    File(FileData),
    Directory(DirData),
}

/// A record of the table with its name.
#[derive(Debug, PartialEq, Eq)]
pub struct FilesystemEntry {
    pub filename: String,
    pub entry: EntryType,
}

/// A [`FilesystemEntry`] with its name as a sequence of characters.
pub struct EntryView {
    pub filename: Seq<char>,
    pub entry: EntryType,
}

impl View for FilesystemEntry {
    type V = EntryView;

    open spec fn view(&self) -> EntryView {
        EntryView { filename: self.filename@, entry: self.entry }
    }
}

/// What the first record of the table says of the table.
#[derive(Debug, Clone, Copy, PartialEq, Eq, Structural)]
pub struct RootDirectory {
    /// The number of records, the root's own among them.
    pub num_entries: u32,
}

impl View for RootDirectory {
    type V = RootDirectory;

    open spec fn view(&self) -> RootDirectory {
        *self
    }
}

impl RootDirectory {
    /// Where the names begin, counted from the start of the table: behind
    /// the last record.
    pub open spec fn spec_string_table_ofst(self) -> int {
        self.num_entries * 12
    }

    /// Where the names begin, counted from the start of the table.
    pub fn string_table_ofst(&self) -> (ofst: u64)
        ensures
            ofst == self.spec_string_table_ofst(),
    {
        self.num_entries as u64 * 12
    }
}

/// What the record at `fst_ofst` says as the root of a table: an I/O fault
/// where the image ends before it, an invalid header where its flag is not
/// 1, else the number of records, which its last four bytes hold.
pub open spec fn spec_root(data: Seq<u8>, fst_ofst: int) -> Result<RootDirectory, Fault> {
    match spec_read(data, fst_ofst, 12) {
        Err(fault) => Err(fault),
        Ok(record) => if record[0] != 1 {
            Err(Fault::InvalidHeader(BAD_ROOT_ENTRY@))
        } else {
            Ok(RootDirectory { num_entries: be32(block(record, 8, 4)) as u32 })
        },
    }
}

/// Reads the root record of the table that begins at `fst_ofst`.
pub fn read_root_entry(data: &[u8], fst_ofst: u32) -> (r: Result<RootDirectory, ImageError>)
    ensures
        view_result(r) == spec_root(data@, fst_ofst as int),
{
    let record: &[u8] = match read_exact_at(data, fst_ofst as u64, FILE_ENTRY_SIZE) {
        Ok(record) => record,
        Err(e) => {
            return Err(e);
        },
    };
    let flags: u8 = record[0];
    if flags != 1 {
        return Err(ImageError::invalid_header(BAD_ROOT_ENTRY));
    }
    let num_entries: u32 = u8_arr_to_u32(slice_subrange(record, 0x08, 0x0C));
    Ok(RootDirectory { num_entries })
}

/// What a record describes. A flag of 0 makes it a file, whose two numbers
/// are its offset and its length; any other flag makes it a directory, whose
/// two numbers are its parent and the record after its last entry.
pub open spec fn spec_entry_type(record: Seq<u8>) -> EntryType
    recommends
        record.len() == 12,
{
    let first = be32(block(record, 4, 4)) as u32;
    let second = be32(block(record, 8, 4)) as u32;
    if record[0] == 0 {
        EntryType::File(FileData { file_offset: first, file_length: second })
    } else {
        EntryType::Directory(DirData { parent_offset: first, next_offset: second })
    }
}

/// The entry that the record at `ofst` spells when the names begin at
/// `names`: an I/O fault where the image ends before the record, an invalid
/// header where the name is not UTF-8. The name begins at `names` plus the
/// 24-bit number in bytes 1 to 3 of the record.
pub open spec fn spec_entry(data: Seq<u8>, ofst: int, names: int) -> Result<EntryView, Fault> {
    match spec_read(data, ofst, 12) {
        Err(fault) => Err(fault),
        Ok(record) => match spec_string(data, names + be24(block(record, 1, 3))) {
            Err(fault) => Err(fault),
            Ok(filename) => Ok(EntryView { filename, entry: spec_entry_type(record) }),
        },
    }
}

/// Reads the record at `ofst` and its name. `string_table_ofst` is where the
/// names begin in the image.
pub fn read_entry(data: &[u8], ofst: u64, string_table_ofst: u64) -> (r: Result<
    FilesystemEntry,
    ImageError,
>)
    ensures
        view_result(r) == spec_entry(data@, ofst as int, string_table_ofst as int),
{
    let record: &[u8] = match read_exact_at(data, ofst, FILE_ENTRY_SIZE) {
        Ok(record) => record,
        Err(e) => {
            return Err(e);
        },
    };
    let flags: u8 = record[0];
    let filename_ofst: u32 = u8_arr_to_u24(slice_subrange(record, 0x01, 0x04));
    // A name that would begin beyond what a `u64` counts begins beyond the
    // image, where every name is empty.
    let size: usize = data.len();
    let name_ofst: u64 = if string_table_ofst > u64::MAX - filename_ofst as u64 {
        u64::MAX
    } else {
        string_table_ofst + filename_ofst as u64
    };
    assert(spec_string(data@, name_ofst as int) == spec_string(
        data@,
        string_table_ofst + be24(block(record@, 1, 3)),
    ));
    let filename: String = match read_string(data, name_ofst) {
        Ok(filename) => filename,
        Err(e) => {
            return Err(e);
        },
    };
    let first: u32 = u8_arr_to_u32(slice_subrange(record, 0x04, 0x08));
    let second: u32 = u8_arr_to_u32(slice_subrange(record, 0x08, 0x0C));
    let entry: EntryType = if flags == 0 {
        EntryType::File(FileData { file_offset: first, file_length: second })
    } else {
        EntryType::Directory(DirData { parent_offset: first, next_offset: second })
    };
    Ok(FilesystemEntry { filename, entry })
}

/// The entry of record `i` of the table that begins at `fst_ofst` and whose
/// root is `root`. Record 0 is the root's own.
pub open spec fn table_entry(data: Seq<u8>, fst_ofst: int, root: RootDirectory, i: int) -> Result<
    EntryView,
    Fault,
> {
    spec_entry(data, fst_ofst + 12 * i, fst_ofst + root.spec_string_table_ofst())
}

/// Whether a search for the file `name` ends at this record: the record
/// cannot be read, or it is a file of that name. A directory of that name
/// does not end it.
pub open spec fn ends_search(entry: Result<EntryView, Fault>, name: Seq<char>) -> bool {
    match entry {
        Err(_) => true,
        Ok(e) => e.entry is File && e.filename == name,
    }
}

/// What a search for the file `name` gives when it has come to record `i`:
/// the first record from `i` on that ends the search, or "not found" behind
/// the last record.
pub open spec fn spec_find_from(
    data: Seq<u8>,
    fst_ofst: int,
    root: RootDirectory,
    name: Seq<char>,
    i: int,
) -> Result<EntryView, Fault>
    decreases root.num_entries - i,
{
    if i >= root.num_entries {
        Err(Fault::FileNotFound(name))
    } else if ends_search(table_entry(data, fst_ofst, root, i), name) {
        table_entry(data, fst_ofst, root, i)
    } else {
        spec_find_from(data, fst_ofst, root, name, i + 1)
    }
}

/// What a search of the whole table for the file `name` gives.
pub open spec fn spec_find(data: Seq<u8>, fst_ofst: int, root: RootDirectory, name: Seq<char>)
    -> Result<EntryView, Fault> {
    spec_find_from(data, fst_ofst, root, name, 0)
}

/// Finds the first file whose name is exactly `name`, record by record.
pub fn find_file(data: &[u8], fst_ofst: u32, root_entry: &RootDirectory, name: &str) -> (r: Result<
    FilesystemEntry,
    ImageError,
>)
    ensures
        view_result(r) == spec_find(data@, fst_ofst as int, *root_entry, name@),
{
    let names: u64 = fst_ofst as u64 + root_entry.string_table_ofst();
    let wanted: String = name.to_owned();
    let mut i: u32 = 0;
    while i < root_entry.num_entries
        invariant
            i <= root_entry.num_entries,
            names == fst_ofst + root_entry.spec_string_table_ofst(),
            wanted@ == name@,
            spec_find(data@, fst_ofst as int, *root_entry, name@) == spec_find_from(
                data@,
                fst_ofst as int,
                *root_entry,
                name@,
                i as int,
            ),
        decreases root_entry.num_entries - i,
    {
        let ofst: u64 = i as u64 * 12 + fst_ofst as u64;
        let entry: FilesystemEntry = match read_entry(data, ofst, names) {
            Ok(entry) => entry,
            Err(e) => {
                return Err(e);
            },
        };
        match entry.entry {
            EntryType::File(_) => {
                if entry.filename == wanted {
                    return Ok(entry);
                }
            },
            EntryType::Directory(_) => {},
        }
        i = i + 1;
    }
    Err(ImageError::file_not_found(name))
}

/// A search ends at the first record that cannot be read or is a file of
/// the wanted name, and gives what that record gives. A directory before it
/// may bear the same name: it is passed over.
pub proof fn lemma_find_first(
    data: Seq<u8>,
    fst_ofst: int,
    root: RootDirectory,
    name: Seq<char>,
    k: int,
)
    requires
        0 <= k < root.num_entries,
        forall|j: int| 0 <= j < k ==> !ends_search(#[trigger] table_entry(data, fst_ofst, root, j), name),
        ends_search(table_entry(data, fst_ofst, root, k), name),
    ensures
        spec_find(data, fst_ofst, root, name) == table_entry(data, fst_ofst, root, k),
{
    lemma_find_skips(data, fst_ofst, root, name, 0, k);
}

/// A search that finds no file of the wanted name in a table whose records
/// can all be read says "not found", with the name.
pub proof fn lemma_find_none(data: Seq<u8>, fst_ofst: int, root: RootDirectory, name: Seq<char>)
    requires
        forall|j: int|
            0 <= j < root.num_entries ==> !ends_search(
                #[trigger] table_entry(data, fst_ofst, root, j),
                name,
            ),
    ensures
        spec_find(data, fst_ofst, root, name) == Err::<EntryView, Fault>(Fault::FileNotFound(name)),
{
    lemma_find_skips(data, fst_ofst, root, name, 0, root.num_entries as int);
}

/// What a search gives is never a directory: it is a file, and its name is
/// the wanted one.
pub proof fn lemma_found_is_file(
    data: Seq<u8>,
    fst_ofst: int,
    root: RootDirectory,
    name: Seq<char>,
)
    ensures
        spec_find(data, fst_ofst, root, name) matches Ok(e) ==> e.entry is File && e.filename
            == name,
{
    lemma_found_from(data, fst_ofst, root, name, 0);
}

/// A search fails in one of three ways: the image ends before a record, a
/// name is not UTF-8, or no file bears the wanted name.
pub proof fn lemma_find_faults(
    data: Seq<u8>,
    fst_ofst: int,
    root: RootDirectory,
    name: Seq<char>,
    i: int,
)
    requires
        0 <= i,
    ensures
        spec_find_from(data, fst_ofst, root, name, i) matches Err(fault) ==> fault == Fault::Io
            || fault == Fault::InvalidHeader(BAD_FILE_NAME@) || fault == Fault::FileNotFound(
            name,
        ),
    decreases root.num_entries - i,
{
    if i < root.num_entries && !ends_search(table_entry(data, fst_ofst, root, i), name) {
        lemma_find_faults(data, fst_ofst, root, name, i + 1);
    }
}

/// A search that has come to record `i` goes on to record `k` where none of
/// the records between ends it.
proof fn lemma_find_skips(
    data: Seq<u8>,
    fst_ofst: int,
    root: RootDirectory,
    name: Seq<char>,
    i: int,
    k: int,
)
    requires
        0 <= i <= k <= root.num_entries,
        forall|j: int| i <= j < k ==> !ends_search(#[trigger] table_entry(data, fst_ofst, root, j), name),
    ensures
        spec_find_from(data, fst_ofst, root, name, i) == spec_find_from(
            data,
            fst_ofst,
            root,
            name,
            k,
        ),
    decreases k - i,
{
    if i < k {
        assert(!ends_search(table_entry(data, fst_ofst, root, i), name));
        lemma_find_skips(data, fst_ofst, root, name, i + 1, k);
    }
}

/// What a search gives from record `i` on is a file of the wanted name.
proof fn lemma_found_from(
    data: Seq<u8>,
    fst_ofst: int,
    root: RootDirectory,
    name: Seq<char>,
    i: int,
)
    requires
        0 <= i,
    ensures
        spec_find_from(data, fst_ofst, root, name, i) matches Ok(e) ==> e.entry is File
            && e.filename == name,
    decreases root.num_entries - i,
{
    if i < root.num_entries && !ends_search(table_entry(data, fst_ofst, root, i), name) {
        lemma_found_from(data, fst_ofst, root, name, i + 1);
    }
}

/// The entries of a table, in the order of their records.
#[derive(Debug, PartialEq, Eq)]
pub struct FilesystemTree {
    files: Vec<FilesystemEntry>,
}

impl View for FilesystemTree {
    type V = Seq<EntryView>;

    closed spec fn view(&self) -> Seq<EntryView> {
        Seq::new(self.files@.len(), |i: int| self.files@[i]@)
    }
}

impl FilesystemTree {
    /// The number of entries.
    pub fn len(&self) -> (n: usize)
        ensures
            n == self@.len(),
    {
        self.files.len()
    }

    /// The entry of record `i`.
    pub fn get(&self, i: usize) -> (entry: &FilesystemEntry)
        requires
            i < self@.len(),
        ensures
            entry@ == self@[i as int],
    {
        &self.files[i]
    }
}

impl IntoIterator for FilesystemTree {
    type Item = FilesystemEntry;

    type IntoIter = std::vec::IntoIter<FilesystemEntry>;

    /// Hands the entries out in the order of their records.
    fn into_iter(self) -> (iter: std::vec::IntoIter<FilesystemEntry>)
        ensures
            iter.remaining().len() == self@.len(),
            forall|i: int|
                0 <= i < self@.len() ==> (#[trigger] iter.remaining()[i])@ == self@[i],
    {
        self.files.into_iter()
    }
}

/// The fault of the first record from `i` on that cannot be read.
pub open spec fn first_fault_from(data: Seq<u8>, fst_ofst: int, root: RootDirectory, i: int) -> Fault
    decreases root.num_entries - i,
{
    if i >= root.num_entries {
        Fault::Io
    } else {
        match table_entry(data, fst_ofst, root, i) {
            Err(fault) => fault,
            Ok(_) => first_fault_from(data, fst_ofst, root, i + 1),
        }
    }
}

/// The entries of the table whose root is `root`: one for each record, the
/// root's own first, in the order of the records. Where a record cannot be
/// read, the fault of the first such record.
pub open spec fn spec_entries(data: Seq<u8>, fst_ofst: int, root: RootDirectory) -> Result<
    Seq<EntryView>,
    Fault,
> {
    if forall|i: int|
        0 <= i < root.num_entries ==> (#[trigger] table_entry(data, fst_ofst, root, i)) is Ok {
        Ok(
            Seq::new(
                root.num_entries as nat,
                |i: int| table_entry(data, fst_ofst, root, i)->Ok_0,
            ),
        )
    } else {
        Err(first_fault_from(data, fst_ofst, root, 0))
    }
}

/// What listing the table at `fst_ofst` gives: the fault of its root
/// record, or else its entries.
pub open spec fn spec_list_entries(data: Seq<u8>, fst_ofst: int) -> Result<Seq<EntryView>, Fault> {
    match spec_root(data, fst_ofst) {
        Err(fault) => Err(fault),
        Ok(root) => spec_entries(data, fst_ofst, root),
    }
}

/// Reads the root record of the table at `fst_ofst`, and then every record
/// with its name.
pub fn list_entries(data: &[u8], fst_ofst: u32) -> (r: Result<FilesystemTree, ImageError>)
    ensures
        view_result(r) == spec_list_entries(data@, fst_ofst as int),
{
    let root_entry: RootDirectory = match read_root_entry(data, fst_ofst) {
        Ok(root_entry) => root_entry,
        Err(e) => {
            return Err(e);
        },
    };
    let str_tbl_ofst: u64 = fst_ofst as u64 + root_entry.string_table_ofst();
    let mut files: Vec<FilesystemEntry> = Vec::new();
    let mut i: u32 = 0;
    while i < root_entry.num_entries
        invariant
            i <= root_entry.num_entries,
            spec_root(data@, fst_ofst as int) == Ok::<RootDirectory, Fault>(root_entry),
            str_tbl_ofst == fst_ofst + root_entry.spec_string_table_ofst(),
            files@.len() == i,
            forall|j: int|
                0 <= j < i ==> (#[trigger] table_entry(data@, fst_ofst as int, root_entry, j))
                    == Ok::<EntryView, Fault>(files@[j]@),
            first_fault_from(data@, fst_ofst as int, root_entry, 0) == first_fault_from(
                data@,
                fst_ofst as int,
                root_entry,
                i as int,
            ),
        decreases root_entry.num_entries - i,
    {
        let ofst: u64 = i as u64 * 12 + fst_ofst as u64;
        let entry: FilesystemEntry = match read_entry(data, ofst, str_tbl_ofst) {
            Ok(entry) => entry,
            Err(e) => {
                assert(table_entry(data@, fst_ofst as int, root_entry, i as int) is Err);
                return Err(e);
            },
        };
        files.push(entry);
        i = i + 1;
    }
    let tree = FilesystemTree { files };
    assert(tree@ =~= spec_entries(data@, fst_ofst as int, root_entry)->Ok_0);
    Ok(tree)
}

/// Whether record `i` of the table lies within the image and has a UTF-8
/// name.
pub open spec fn record_is_sound(data: Seq<u8>, fst_ofst: int, root: RootDirectory, i: int) -> bool {
    let ofst = fst_ofst + 12 * i;
    &&& in_bounds(data, ofst, 12)
    &&& valid_utf8(
        c_string(
            data,
            fst_ofst + root.spec_string_table_ofst() + be24(block(data, ofst + 1, 3)),
        ),
    )
}

/// A table whose root record has the flag 1 and counts `k` records, all of
/// them within the image and with UTF-8 names, lists as exactly `k` entries,
/// the root's own first, in the order of the records. Entry `i` is a file
/// where the flag of record `i` is 0 and a directory where it is not, and
/// bears the name that the record points to.
pub proof fn lemma_listing_follows_records(data: Seq<u8>, fst_ofst: int, k: u32)
    requires
        in_bounds(data, fst_ofst, 12),
        data[fst_ofst] == 1,
        be32(block(data, fst_ofst + 8, 4)) == k,
        forall|i: int|
            0 <= i < k ==> #[trigger] record_is_sound(
                data,
                fst_ofst,
                RootDirectory { num_entries: k },
                i,
            ),
    ensures
        spec_list_entries(data, fst_ofst) matches Ok(entries) && entries.len() == k && forall|
            i: int,
        |
            0 <= i < k ==> {
                let entry = #[trigger] entries[i];
                let ofst = fst_ofst + 12 * i;
                &&& Ok::<EntryView, Fault>(entry) == table_entry(
                    data,
                    fst_ofst,
                    RootDirectory { num_entries: k },
                    i,
                )
                &&& entry.entry is File <==> data[ofst] == 0
                &&& entry.entry is Directory <==> data[ofst] != 0
                &&& entry.filename == decode_utf8(
                    c_string(data, fst_ofst + 12 * k + be24(block(data, ofst + 1, 3))),
                )
            },
{
    let root = RootDirectory { num_entries: k };
    assert(block(block(data, fst_ofst, 12), 8, 4) =~= block(data, fst_ofst + 8, 4));
    assert(spec_root(data, fst_ofst) == Ok::<RootDirectory, Fault>(root));
    assert forall|i: int| 0 <= i < k implies (#[trigger] table_entry(data, fst_ofst, root, i)) is Ok
        && (table_entry(data, fst_ofst, root, i)->Ok_0.entry is File <==> data[fst_ofst + 12 * i]
        == 0) && table_entry(data, fst_ofst, root, i)->Ok_0.filename == decode_utf8(
        c_string(data, fst_ofst + 12 * k + be24(block(data, fst_ofst + 12 * i + 1, 3))),
    ) by {
        assert(record_is_sound(data, fst_ofst, root, i));
        let ofst = fst_ofst + 12 * i;
        assert(block(block(data, ofst, 12), 1, 3) =~= block(data, ofst + 1, 3));
    }
}

} // verus!
