//! The ways in which reading an image fails.

use vstd::prelude::*;

verus! {

/// Reason of an invalid header: the magic word is not the disc's.
pub const BAD_MAGIC: &'static str = "incorrect or missing magic number";

/// Reason of an invalid header: the file system table starts beyond the image.
pub const BAD_FST_OFFSET: &'static str = "malformed filesystem table offset";

/// Reason of an invalid header: the boot file starts beyond the image.
pub const BAD_DOL_OFFSET: &'static str = "malformed bootfile offset";

/// Reason of an invalid header: the game code does not begin with the console's letter.
pub const BAD_CONSOLE_ID: &'static str = "incorrect console id";

/// Reason of an invalid header: the game name is not UTF-8.
pub const BAD_GAME_NAME: &'static str = "malformed game name";

/// Reason of an invalid header: the first record of the table is no directory.
pub const BAD_ROOT_ENTRY: &'static str = "invalid root directory entry";

/// Reason of an invalid header: the name of a record of the table is not UTF-8.
pub const BAD_FILE_NAME: &'static str = "malformed file name";

/// Reason of an invalid banner: the banner file has the wrong length.
pub const BAD_BANNER_LENGTH: &'static str = "malformed banner file";

/// Reason of an invalid banner: the banner's name belongs to a directory.
pub const BANNER_NOT_A_FILE: &'static str = "opening.bnr must be a file";

/// Reason of an invalid banner: the banner does not begin with its magic word.
pub const BAD_BANNER_MAGIC: &'static str = "invalid banner magic word";

/// Why an image was refused. The first rule that an image breaks decides.
#[derive(Debug, PartialEq, Eq)]
#[non_exhaustive]
pub enum ImageError {
    /// The image ends before the bytes that were asked for.
    IOError,
    /// The image does not have the size of a disc.
    InvalidFileType,
    /// The region byte of the game code stands for no region.
    InvalidRegion { byte: u8 },
    /// The header or the file system table breaks a rule; the text names it.
    InvalidHeader(String),
    /// The banner breaks a rule; the text names it.
    InvalidBanner(String),
    /// No file of this name is in the file system table.
    FileNotFound(String),
}

/// An [`ImageError`] with its text as a sequence of characters.
pub enum Fault {
    Io,
    InvalidFileType,
    InvalidRegion { byte: u8 },
    InvalidHeader(Seq<char>),
    InvalidBanner(Seq<char>),
    FileNotFound(Seq<char>),
}

impl View for ImageError {
    type V = Fault;

    open spec fn view(&self) -> Fault {
        match self {
            ImageError::IOError => Fault::Io,
            ImageError::InvalidFileType => Fault::InvalidFileType,
            ImageError::InvalidRegion { byte } => Fault::InvalidRegion { byte: *byte },
            ImageError::InvalidHeader(reason) => Fault::InvalidHeader(reason@),
            ImageError::InvalidBanner(reason) => Fault::InvalidBanner(reason@),
            ImageError::FileNotFound(name) => Fault::FileNotFound(name@),
        }
    }
}

/// The reason "wrong magic word" is the text of no other reason of an
/// invalid header.
pub proof fn lemma_bad_magic_is_told_apart()
    ensures
        BAD_MAGIC@ != BAD_FST_OFFSET@,
        BAD_MAGIC@ != BAD_DOL_OFFSET@,
        BAD_MAGIC@ != BAD_CONSOLE_ID@,
        BAD_MAGIC@ != BAD_GAME_NAME@,
        BAD_MAGIC@ != BAD_ROOT_ENTRY@,
        BAD_MAGIC@ != BAD_FILE_NAME@,
{
    reveal_strlit("incorrect or missing magic number");
    reveal_strlit("malformed filesystem table offset");
    reveal_strlit("malformed bootfile offset");
    reveal_strlit("incorrect console id");
    reveal_strlit("malformed game name");
    reveal_strlit("invalid root directory entry");
    reveal_strlit("malformed file name");
    assert(BAD_MAGIC@.len() == 33 && BAD_MAGIC@[0] == 'i');
    assert(BAD_FST_OFFSET@[0] == 'm');
    assert(BAD_DOL_OFFSET@[0] == 'm');
    assert(BAD_GAME_NAME@[0] == 'm');
    assert(BAD_FILE_NAME@[0] == 'm');
    assert(BAD_CONSOLE_ID@.len() == 20);
    assert(BAD_ROOT_ENTRY@.len() == 28);
}

/// A result with both sides seen through their views.
pub open spec fn view_result<T: View, E: View>(r: Result<T, E>) -> Result<T::V, E::V> {
    match r {
        Ok(value) => Ok(value@),
        Err(e) => Err(e@),
    }
}

impl ImageError {
    /// An invalid header, with its reason.
    pub fn invalid_header(reason: &str) -> (e: ImageError)
        ensures
            e@ == Fault::InvalidHeader(reason@),
    {
        ImageError::InvalidHeader(reason.to_owned())
    }

    /// An invalid banner, with its reason.
    pub fn invalid_banner(reason: &str) -> (e: ImageError)
        ensures
            e@ == Fault::InvalidBanner(reason@),
    {
        ImageError::InvalidBanner(reason.to_owned())
    }

    /// A file that the table does not hold, with its name.
    pub fn file_not_found(name: &str) -> (e: ImageError)
        ensures
            e@ == Fault::FileNotFound(name@),
    {
        ImageError::FileNotFound(name.to_owned())
    }
}

} // verus!
