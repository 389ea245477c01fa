//! The banner: the file `opening.bnr`, which holds a picture and the game's
//! titles in the encoding of the disc's region.

use vstd::prelude::*;
use vstd::slice::slice_subrange;
use crate::bytes::{array_at, block, read_exact_at, spec_read};
use crate::error::{
    view_result, Fault, ImageError, BAD_BANNER_LENGTH, BAD_BANNER_MAGIC, BANNER_NOT_A_FILE,
};
use crate::fst::{find_file, spec_find, EntryType, FilesystemEntry, RootDirectory};
use crate::region::Region;
use crate::text::{byte_slice_to_string, region_text};

verus! {

/// The name of the banner file.
pub const BANNER_NAME: &'static str = "opening.bnr";

/// The length of the banner file.
pub const BANNER_SZ: usize = 6_496;

/// The banner of a disc.
#[derive(Debug, PartialEq, Eq)]
pub struct Banner {
    pub magic_word: [u8; 4],
    /// The picture, in RGB5A1.
    pub graphical_data: [u8; 0x1800],
    pub game_name: String,
    pub developer: String,
    pub full_game_title: String,
    pub full_developer_name: String,
    pub description: String,
}

/// A [`Banner`] with its arrays and its texts as sequences.
pub struct BannerView {
    pub magic_word: Seq<u8>,
    pub graphical_data: Seq<u8>,
    pub game_name: Seq<char>,
    pub developer: Seq<char>,
    pub full_game_title: Seq<char>,
    pub full_developer_name: Seq<char>,
    pub description: Seq<char>,
}

impl View for Banner {
    type V = BannerView;

    open spec fn view(&self) -> BannerView {
        BannerView {
            magic_word: self.magic_word@,
            graphical_data: self.graphical_data@,
            game_name: self.game_name@,
            developer: self.developer@,
            full_game_title: self.full_game_title@,
            full_developer_name: self.full_developer_name@,
            description: self.description@,
        }
    }
}

/// The banner that the 6496 bytes of a banner file spell on a disc of
/// `region`. The magic word and the picture are the file's bytes as they
/// stand. Each text is the whole of its field, padding included, in the
/// encoding of the region.
pub open spec fn spec_banner(data: Seq<u8>, region: Region) -> BannerView
    recommends
        data.len() == BANNER_SZ,
{
    BannerView {
        magic_word: block(data, 0x0000, 4),
        graphical_data: block(data, 0x0020, 0x1800),
        game_name: region_text(region, block(data, 0x1820, 0x20)),
        developer: region_text(region, block(data, 0x1840, 0x20)),
        full_game_title: region_text(region, block(data, 0x1860, 0x40)),
        full_developer_name: region_text(region, block(data, 0x18a0, 0x40)),
        description: region_text(region, block(data, 0x18e0, 0x80)),
    }
}

/// Decodes the bytes of a banner file.
pub fn decode_banner(data: &[u8], region: Region) -> (banner: Banner)
    requires
        data@.len() == BANNER_SZ,
    ensures
        banner@ == spec_banner(data@, region),
{
    let magic_word: [u8; 4] = array_at(data, 0x0000);
    let graphical_data: [u8; 0x1800] = array_at(data, 0x0020);
    let game_name: String = byte_slice_to_string(slice_subrange(data, 0x1820, 0x1840), region);
    let developer: String = byte_slice_to_string(slice_subrange(data, 0x1840, 0x1860), region);
    let full_game_title: String = byte_slice_to_string(
        slice_subrange(data, 0x1860, 0x18a0),
        region,
    );
    let full_developer_name: String = byte_slice_to_string(
        slice_subrange(data, 0x18a0, 0x18e0),
        region,
    );
    let description: String = byte_slice_to_string(slice_subrange(data, 0x18e0, 0x1960), region);
    Banner {
        magic_word,
        graphical_data,
        game_name,
        developer,
        full_game_title,
        full_developer_name,
        description,
    }
}

/// The banner of the entry that a search for the banner file gave: an
/// invalid banner where the entry is a directory or its length is not 6496,
/// an I/O fault where the image ends before the file's last byte, else what
/// the file's bytes spell.
pub open spec fn spec_banner_of_entry(data: Seq<u8>, entry: EntryType, region: Region) -> Result<
    BannerView,
    Fault,
> {
    match entry {
        EntryType::Directory(_) => Err(Fault::InvalidBanner(BANNER_NOT_A_FILE@)),
        EntryType::File(file) => if file.file_length != BANNER_SZ {
            Err(Fault::InvalidBanner(BAD_BANNER_LENGTH@))
        } else {
            match spec_read(data, file.file_offset as int, BANNER_SZ as int) {
                Err(fault) => Err(fault),
                Ok(bytes) => Ok(spec_banner(bytes, region)),
            }
        },
    }
}

/// What reading the banner gives: the fault of the search for the file
/// `opening.bnr`, or else the banner of the entry found.
pub open spec fn spec_read_banner(
    data: Seq<u8>,
    fst_ofst: int,
    root: RootDirectory,
    region: Region,
) -> Result<BannerView, Fault> {
    match spec_find(data, fst_ofst, root, BANNER_NAME@) {
        Err(fault) => Err(fault),
        Ok(entry) => spec_banner_of_entry(data, entry.entry, region),
    }
}

/// Finds the banner file in the table at `fst_ofst` and decodes it.
pub fn read_banner(data: &[u8], fst_ofst: u32, root_entry: &RootDirectory, region: Region) -> (r:
    Result<Banner, ImageError>)
    ensures
        view_result(r) == spec_read_banner(data@, fst_ofst as int, *root_entry, region),
{
    let banner_entry: FilesystemEntry = match find_file(data, fst_ofst, root_entry, BANNER_NAME) {
        Ok(entry) => entry,
        Err(e) => {
            return Err(e);
        },
    };
    match banner_entry.entry {
        EntryType::File(file_data) => {
            if file_data.file_length as usize != BANNER_SZ {
                return Err(ImageError::invalid_banner(BAD_BANNER_LENGTH));
            }
            let bytes: &[u8] = match read_exact_at(data, file_data.file_offset as u64, BANNER_SZ) {
                Ok(bytes) => bytes,
                Err(e) => {
                    return Err(e);
                },
            };
            Ok(decode_banner(bytes, region))
        },
        EntryType::Directory(_) => Err(ImageError::invalid_banner(BANNER_NOT_A_FILE)),
    }
}

/// Whether four bytes are the magic word of a banner: `BNR1` or `BNR2`.
pub open spec fn is_banner_magic(word: Seq<u8>) -> bool {
    &&& word[0] == 'B' as u8
    &&& word[1] == 'N' as u8
    &&& word[2] == 'R' as u8
    &&& (word[3] == '1' as u8 || word[3] == '2' as u8)
}

/// What the rule of the banner says of `banner`: its magic word is `BNR1`
/// or `BNR2`.
pub open spec fn spec_validate_banner(banner: BannerView) -> Result<(), Fault> {
    if is_banner_magic(banner.magic_word) {
        Ok(())
    } else {
        Err(Fault::InvalidBanner(BAD_BANNER_MAGIC@))
    }
}

/// Holds a banner to the rule of the format.
pub fn validate_banner(bnr: &Banner) -> (r: Result<(), ImageError>)
    ensures
        view_result(r) == spec_validate_banner(bnr@),
{
    if bnr.magic_word[0] != 0x42 || bnr.magic_word[1] != 0x4E || bnr.magic_word[2] != 0x52 || (
    bnr.magic_word[3] != 0x31 && bnr.magic_word[3] != 0x32) {
        Err(ImageError::invalid_banner(BAD_BANNER_MAGIC))
    } else {
        Ok(())
    }
}

} // verus!
