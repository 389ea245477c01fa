//! A disc image that has been opened: its header, its region and its
//! banner, all of them checked, with the bytes they were read from.

use vstd::prelude::*;
use vstd::slice::slice_subrange;
use vstd::utf8::valid_utf8;
use crate::banner::{
    is_banner_magic, read_banner, spec_read_banner, spec_validate_banner, validate_banner, Banner,
    BannerView, BANNER_NAME, BANNER_SZ,
};
use crate::bytes::{be32, block, in_bounds, lemma_be32_bound};
use crate::error::{
    lemma_bad_magic_is_told_apart, view_result, Fault, ImageError, BAD_BANNER_LENGTH,
    BAD_BANNER_MAGIC, BAD_MAGIC,
};
use crate::fst::{
    lemma_find_faults, list_entries, read_root_entry, spec_find, spec_list_entries, spec_root,
    EntryType, EntryView, FileData, FilesystemTree, RootDirectory,
};
use crate::header::{
    parse_header, spec_header, spec_validate_header, validate_header, DVDHeader, HeaderView,
    CONSOLE_ID, DVD_HEADER_SIZE, DVD_IMAGE_SIZE, DVD_MAGIC_NUMBER,
};
use crate::region::{spec_region, Region};

verus! {

/// An image that passed every check of [`GCImage::open`].
#[derive(Debug, PartialEq, Eq)]
pub struct GCImage {
    pub header: DVDHeader,
    pub banner: Banner,
    pub region: Region,
    /// The bytes of the image.
    pub data: Vec<u8>,
}

/// A [`GCImage`] through the views of its parts.
pub struct ImageView {
    pub header: HeaderView,
    pub banner: BannerView,
    pub region: Region,
    pub source: Seq<u8>,
}

impl View for GCImage {
    type V = ImageView;

    open spec fn view(&self) -> ImageView {
        ImageView {
            header: self.header@,
            banner: self.banner@,
            region: self.region,
            source: self.data@,
        }
    }
}

/// Whether `size` is the size of a disc image.
pub open spec fn spec_check_size(size: int) -> Result<(), Fault> {
    if size == DVD_IMAGE_SIZE {
        Ok(())
    } else {
        Err(Fault::InvalidFileType)
    }
}

/// Holds the size of a source to the size of a disc image.
pub fn check_size(size: u64) -> (r: Result<(), ImageError>)
    ensures
        view_result(r) == spec_check_size(size as int),
{
    if size != DVD_IMAGE_SIZE {
        Err(ImageError::InvalidFileType)
    } else {
        Ok(())
    }
}

/// What opening `data` gives. The checks come in this order, and the first
/// that fails decides: the size of the image; the header, which is decoded
/// and then held to its rules; the region, told from the fourth byte of the
/// game code; the root record of the file system table; the banner, which is
/// searched, decoded and then held to its rule.
pub open spec fn spec_open(data: Seq<u8>) -> Result<ImageView, Fault> {
    match spec_check_size(data.len() as int) {
        Err(fault) => Err(fault),
        Ok(_) => match spec_header(block(data, 0, DVD_HEADER_SIZE as int)) {
            Err(fault) => Err(fault),
            Ok(header) => match spec_validate_header(header) {
                Err(fault) => Err(fault),
                Ok(_) => match spec_region(header.game_code[3]) {
                    Err(fault) => Err(fault),
                    Ok(region) => match spec_root(data, header.fst_ofst as int) {
                        Err(fault) => Err(fault),
                        Ok(root) => match spec_read_banner(
                            data,
                            header.fst_ofst as int,
                            root,
                            region,
                        ) {
                            Err(fault) => Err(fault),
                            Ok(banner) => match spec_validate_banner(banner) {
                                Err(fault) => Err(fault),
                                Ok(_) => Ok(ImageView { header, banner, region, source: data }),
                            },
                        },
                    },
                },
            },
        },
    }
}

impl GCImage {
    /// Opens an image: checks its size, its header, its region, the root
    /// of its file system table and its banner, and keeps the bytes for
    /// later listings.
    pub fn open(data: Vec<u8>) -> (r: Result<GCImage, ImageError>)
        ensures
            view_result(r) == spec_open(data@),
    {
        match check_size(data.len() as u64) {
            Ok(_) => {},
            Err(e) => {
                return Err(e);
            },
        }
        let header: DVDHeader = match parse_header(
            slice_subrange(data.as_slice(), 0, DVD_HEADER_SIZE),
        ) {
            Ok(header) => header,
            Err(e) => {
                return Err(e);
            },
        };
        match validate_header(&header) {
            Ok(_) => {},
            Err(e) => {
                return Err(e);
            },
        }
        let region: Region = match Region::from_byte(header.game_code[3]) {
            Ok(region) => region,
            Err(e) => {
                return Err(e);
            },
        };
        let root_entry: RootDirectory = match read_root_entry(data.as_slice(), header.fst_ofst) {
            Ok(root_entry) => root_entry,
            Err(e) => {
                return Err(e);
            },
        };
        let banner: Banner = match read_banner(
            data.as_slice(),
            header.fst_ofst,
            &root_entry,
            region,
        ) {
            Ok(banner) => banner,
            Err(e) => {
                return Err(e);
            },
        };
        match validate_banner(&banner) {
            Ok(_) => {},
            Err(e) => {
                return Err(e);
            },
        }
        Ok(GCImage { header, banner, region, data })
    }

    /// Lists the file system table that the header points to. The table is
    /// read anew at each call.
    pub fn files(&self) -> (r: Result<FilesystemTree, ImageError>)
        ensures
            view_result(r) == spec_list_entries(self.data@, self.header.fst_ofst as int),
    {
        list_entries(self.data.as_slice(), self.header.fst_ofst)
    }
}

/// An image of any other size than a disc's is refused as no disc image,
/// whatever it holds.
pub proof fn lemma_wrong_size_is_refused(data: Seq<u8>)
    requires
        data.len() != DVD_IMAGE_SIZE,
    ensures
        spec_open(data) == Err::<ImageView, Fault>(Fault::InvalidFileType),
{
}

/// An image of the right size whose bytes `0x1C` to `0x1F` are not the
/// disc's magic word is refused for its header, whatever else it holds.
pub proof fn lemma_wrong_magic_is_refused(data: Seq<u8>)
    requires
        data.len() == DVD_IMAGE_SIZE,
        be32(block(data, 0x1c, 4)) != DVD_MAGIC_NUMBER,
    ensures
        spec_open(data) matches Err(Fault::InvalidHeader(_)),
{
    assert(block(block(data, 0, DVD_HEADER_SIZE as int), 0x1c, 4) =~= block(data, 0x1c, 4));
}

/// In an image of the right size whose game name is UTF-8, the magic word
/// alone decides whether opening fails for the magic word: it does where
/// the four bytes are wrong, and once they are right it no longer does,
/// whatever becomes of the later checks.
pub proof fn lemma_magic_decides(data: Seq<u8>)
    requires
        data.len() == DVD_IMAGE_SIZE,
        valid_utf8(block(data, 0x20, 0x3e0)),
    ensures
        spec_open(data) == Err::<ImageView, Fault>(Fault::InvalidHeader(BAD_MAGIC@)) <==> be32(
            block(data, 0x1c, 4),
        ) != DVD_MAGIC_NUMBER,
{
    let head = block(data, 0, DVD_HEADER_SIZE as int);
    assert(block(head, 0x1c, 4) =~= block(data, 0x1c, 4));
    assert(block(head, 0x20, 0x3e0) =~= block(data, 0x20, 0x3e0));
    lemma_bad_magic_is_told_apart();
    let header = spec_header(head)->Ok_0;
    if spec_validate_header(header) is Ok && spec_region(header.game_code[3]) is Ok && spec_root(
        data,
        header.fst_ofst as int,
    ) is Ok {
        let root = spec_root(data, header.fst_ofst as int)->Ok_0;
        lemma_find_faults(data, header.fst_ofst as int, root, BANNER_NAME@, 0);
    }
}

/// An image of the right size whose file system table or whose boot file
/// would start at or beyond the end of the image is refused for its header,
/// even where its magic word and its console letter are right.
pub proof fn lemma_offsets_beyond_image_are_refused(data: Seq<u8>)
    requires
        data.len() == DVD_IMAGE_SIZE,
        be32(block(data, 0x424, 4)) >= DVD_IMAGE_SIZE || be32(block(data, 0x420, 4))
            >= DVD_IMAGE_SIZE,
    ensures
        spec_open(data) matches Err(Fault::InvalidHeader(_)),
{
    let head = block(data, 0, DVD_HEADER_SIZE as int);
    assert(block(head, 0x420, 4) =~= block(data, 0x420, 4));
    assert(block(head, 0x424, 4) =~= block(data, 0x424, 4));
    lemma_be32_bound(block(data, 0x420, 4));
    lemma_be32_bound(block(data, 0x424, 4));
}

/// Whether `data` passes every check that comes before the banner is
/// decoded, and the search for the banner file gives `entry`.
pub open spec fn finds_banner_entry(data: Seq<u8>, entry: EntryView) -> bool {
    &&& spec_check_size(data.len() as int) is Ok
    &&& spec_header(block(data, 0, DVD_HEADER_SIZE as int)) matches Ok(header)
    &&& spec_validate_header(header) is Ok
    &&& spec_region(header.game_code[3]) is Ok
    &&& spec_root(data, header.fst_ofst as int) matches Ok(root)
    &&& spec_find(data, header.fst_ofst as int, root, BANNER_NAME@) == Ok::<EntryView, Fault>(
        entry,
    )
}

/// An image that is sound up to its banner is refused for its banner where
/// the banner file is not 6496 bytes long, and where it is but does not begin
/// with `BNR1` or `BNR2`.
pub proof fn lemma_bad_banner_is_refused(data: Seq<u8>, entry: EntryView, file: FileData)
    requires
        finds_banner_entry(data, entry),
        entry.entry == EntryType::File(file),
        file.file_length != BANNER_SZ || (in_bounds(
            data,
            file.file_offset as int,
            BANNER_SZ as int,
        ) && !is_banner_magic(block(data, file.file_offset as int, 4))),
    ensures
        spec_open(data) matches Err(Fault::InvalidBanner(_)),
        file.file_length != BANNER_SZ ==> spec_open(data) == Err::<ImageView, Fault>(
            Fault::InvalidBanner(BAD_BANNER_LENGTH@),
        ),
        file.file_length == BANNER_SZ ==> spec_open(data) == Err::<ImageView, Fault>(
            Fault::InvalidBanner(BAD_BANNER_MAGIC@),
        ),
{
    if file.file_length == BANNER_SZ {
        let bytes = block(data, file.file_offset as int, BANNER_SZ as int);
        assert(block(bytes, 0, 4) =~= block(data, file.file_offset as int, 4));
    }
}

/// What an opened image holds has passed every rule: the header bears the
/// magic word and the console's letter, its two offsets lie within the image,
/// the region is the one that the game code names, the banner begins with
/// its magic word, and the bytes are those that were handed in.
pub proof fn lemma_opened_image_is_sound(data: Seq<u8>)
    ensures
        spec_open(data) matches Ok(image) ==> {
            &&& image.source == data
            &&& data.len() == DVD_IMAGE_SIZE
            &&& Ok::<HeaderView, Fault>(image.header) == spec_header(
                block(data, 0, DVD_HEADER_SIZE as int),
            )
            &&& image.header.magic_word == DVD_MAGIC_NUMBER
            &&& image.header.fst_ofst < DVD_IMAGE_SIZE
            &&& image.header.dol_ofst < DVD_IMAGE_SIZE
            &&& image.header.game_code[0] == CONSOLE_ID
            &&& Ok::<Region, Fault>(image.region) == spec_region(image.header.game_code[3])
            &&& is_banner_magic(image.banner.magic_word)
        },
{
}

} // verus!
