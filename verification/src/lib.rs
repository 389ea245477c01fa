//! Decoder and validator for raw GameCube disc images.
//!
//! An image is taken as one run of bytes. Every function states what it
//! returns over that run of bytes, seen as a `Seq<u8>`.

pub mod banner;
pub mod bytes;
pub mod error;
pub mod fst;
pub mod header;
pub mod image;
pub mod region;
pub mod text;

pub use banner::{decode_banner, read_banner, validate_banner, Banner, BANNER_NAME, BANNER_SZ};
pub use bytes::{array_at, read_exact_at, read_string, u8_arr_to_u24, u8_arr_to_u32};
pub use error::ImageError;
pub use fst::{
    find_file, list_entries, read_entry, read_root_entry, DirData, EntryType, FileData,
    FilesystemEntry, FilesystemTree, RootDirectory, FILE_ENTRY_SIZE,
};
pub use header::{
    parse_header, validate_header, DVDHeader, CONSOLE_ID, DVD_HEADER_SIZE, DVD_IMAGE_SIZE,
    DVD_MAGIC_NUMBER, GAME_NAME_SIZE,
};
pub use image::{check_size, GCImage};
pub use region::Region;
pub use text::byte_slice_to_string;
