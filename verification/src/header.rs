//! The disc header: the first `0x440` bytes of an image.

use vstd::prelude::*;
use vstd::slice::{slice_subrange, slice_to_vec};
use vstd::utf8::{decode_utf8, valid_utf8};
use crate::bytes::{array_at, be32, block, u8_arr_to_u32};
use crate::error::{
    view_result, Fault, ImageError, BAD_CONSOLE_ID, BAD_DOL_OFFSET, BAD_FST_OFFSET, BAD_GAME_NAME,
    BAD_MAGIC,
};
use crate::text::string_from_utf8;

verus! {

/// Length of the disc header.
pub const DVD_HEADER_SIZE: usize = 0x0440;

/// The magic word of a disc.
pub const DVD_MAGIC_NUMBER: u32 = 0xC2339F3D;

/// The size that every image has.
pub const DVD_IMAGE_SIZE: u64 = 1_459_978_240;

/// Length of the game name in the header.
pub const GAME_NAME_SIZE: usize = 0x03e0;

/// First byte of every game code: `G`.
pub const CONSOLE_ID: u8 = 0x47;

/// The fields of the disc header.
#[derive(Debug, PartialEq, Eq)]
pub struct DVDHeader {
    pub game_code: [u8; 4],
    pub maker_code: [u8; 2],
    pub disk_id: u8,
    pub version: u8,
    pub audio_streaming: bool,
    pub stream_buf_sz: u8,
    pub magic_word: u32,
    pub game_name: String,
    pub dol_ofst: u32,
    pub fst_ofst: u32,
    pub fst_sz: u32,
    pub max_fst_sz: u32,
}

/// A [`DVDHeader`] with its arrays and its text as sequences.
pub struct HeaderView {
    pub game_code: Seq<u8>,
    pub maker_code: Seq<u8>,
    pub disk_id: u8,
    pub version: u8,
    pub audio_streaming: bool,
    pub stream_buf_sz: u8,
    pub magic_word: u32,
    pub game_name: Seq<char>,
    pub dol_ofst: u32,
    pub fst_ofst: u32,
    pub fst_sz: u32,
    pub max_fst_sz: u32,
}

impl View for DVDHeader {
    type V = HeaderView;

    open spec fn view(&self) -> HeaderView {
        HeaderView {
            game_code: self.game_code@,
            maker_code: self.maker_code@,
            disk_id: self.disk_id,
            version: self.version,
            audio_streaming: self.audio_streaming,
            stream_buf_sz: self.stream_buf_sz,
            magic_word: self.magic_word,
            game_name: self.game_name@,
            dol_ofst: self.dol_ofst,
            fst_ofst: self.fst_ofst,
            fst_sz: self.fst_sz,
            max_fst_sz: self.max_fst_sz,
        }
    }
}

/// The header that `0x440` bytes spell. The game name is strict UTF-8 and
/// keeps its padding; bytes that are not UTF-8 there are a fault. All numbers
/// are big-endian.
pub open spec fn spec_header(data: Seq<u8>) -> Result<HeaderView, Fault>
    recommends
        data.len() == DVD_HEADER_SIZE,
{
    if !valid_utf8(block(data, 0x20, GAME_NAME_SIZE as int)) {
        Err(Fault::InvalidHeader(BAD_GAME_NAME@))
    } else {
        Ok(
            HeaderView {
                game_code: block(data, 0x00, 4),
                maker_code: block(data, 0x04, 2),
                disk_id: data[0x06],
                version: data[0x07],
                audio_streaming: data[0x08] != 0,
                stream_buf_sz: data[0x09],
                magic_word: be32(block(data, 0x1c, 4)) as u32,
                game_name: decode_utf8(block(data, 0x20, GAME_NAME_SIZE as int)),
                dol_ofst: be32(block(data, 0x420, 4)) as u32,
                fst_ofst: be32(block(data, 0x424, 4)) as u32,
                fst_sz: be32(block(data, 0x428, 4)) as u32,
                max_fst_sz: be32(block(data, 0x42c, 4)) as u32,
            },
        )
    }
}

/// Decodes the disc header.
pub fn parse_header(data: &[u8]) -> (r: Result<DVDHeader, ImageError>)
    requires
        data@.len() == DVD_HEADER_SIZE,
    ensures
        view_result(r) == spec_header(data@),
{
    let game_code: [u8; 4] = array_at(data, 0x00);
    let maker_code: [u8; 2] = array_at(data, 0x04);
    let disk_id: u8 = data[0x06];
    let version: u8 = data[0x07];
    let audio_streaming: bool = data[0x08] != 0;
    let stream_buf_sz: u8 = data[0x09];
    let magic_word: u32 = u8_arr_to_u32(slice_subrange(data, 0x001c, 0x0020));
    let game_name: String = match string_from_utf8(
        slice_to_vec(slice_subrange(data, 0x0020, 0x0400)),
    ) {
        Some(name) => name,
        None => {
            return Err(ImageError::invalid_header(BAD_GAME_NAME));
        },
    };
    let dol_ofst: u32 = u8_arr_to_u32(slice_subrange(data, 0x0420, 0x0424));
    let fst_ofst: u32 = u8_arr_to_u32(slice_subrange(data, 0x0424, 0x0428));
    let fst_sz: u32 = u8_arr_to_u32(slice_subrange(data, 0x0428, 0x042C));
    let max_fst_sz: u32 = u8_arr_to_u32(slice_subrange(data, 0x042C, 0x0430));
    Ok(
        DVDHeader {
            game_code,
            maker_code,
            disk_id,
            version,
            audio_streaming,
            stream_buf_sz,
            magic_word,
            game_name,
            dol_ofst,
            fst_ofst,
            fst_sz,
            max_fst_sz,
        },
    )
}

/// What the rules of the header say of `h`. They are tried in this order,
/// and the first that fails decides: the magic word is the disc's; the file
/// system table starts within the image; so does the boot file; the game
/// code begins with the console's letter.
pub open spec fn spec_validate_header(h: HeaderView) -> Result<(), Fault> {
    if h.magic_word != DVD_MAGIC_NUMBER {
        Err(Fault::InvalidHeader(BAD_MAGIC@))
    } else if h.fst_ofst >= DVD_IMAGE_SIZE {
        Err(Fault::InvalidHeader(BAD_FST_OFFSET@))
    } else if h.dol_ofst >= DVD_IMAGE_SIZE {
        Err(Fault::InvalidHeader(BAD_DOL_OFFSET@))
    } else if h.game_code[0] != CONSOLE_ID {
        Err(Fault::InvalidHeader(BAD_CONSOLE_ID@))
    } else {
        Ok(())
    }
}

/// Holds a header to the rules of the format.
pub fn validate_header(hdr: &DVDHeader) -> (r: Result<(), ImageError>)
    ensures
        view_result(r) == spec_validate_header(hdr@),
{
    if hdr.magic_word != DVD_MAGIC_NUMBER {
        return Err(ImageError::invalid_header(BAD_MAGIC));
    }
    if (hdr.fst_ofst as u64) >= DVD_IMAGE_SIZE {
        return Err(ImageError::invalid_header(BAD_FST_OFFSET));
    }
    if (hdr.dol_ofst as u64) >= DVD_IMAGE_SIZE {
        return Err(ImageError::invalid_header(BAD_DOL_OFFSET));
    }
    if hdr.game_code[0] != CONSOLE_ID {
        return Err(ImageError::invalid_header(BAD_CONSOLE_ID));
    }
    Ok(())
}

} // verus!
