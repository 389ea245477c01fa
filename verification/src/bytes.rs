//! Big-endian integers, and the two ways in which an image is read: a block
//! of a given length, and the bytes up to the next zero byte.

use vstd::prelude::*;
use vstd::slice::{slice_subrange, slice_to_vec};
use vstd::utf8::{decode_utf8, valid_utf8};
use crate::error::{view_result, Fault, ImageError, BAD_FILE_NAME};
use crate::text::string_from_utf8;

verus! {

/// The number that four bytes spell, most significant byte first.
pub open spec fn be32(b: Seq<u8>) -> int
    recommends
        b.len() == 4,
{
    b[0] as int * 0x100_0000 + b[1] as int * 0x1_0000 + b[2] as int * 0x100 + b[3] as int
}

/// The number that three bytes spell, most significant byte first.
pub open spec fn be24(b: Seq<u8>) -> int
    recommends
        b.len() == 3,
{
    b[0] as int * 0x1_0000 + b[1] as int * 0x100 + b[2] as int
}

/// Four bytes spell a number that a `u32` holds.
pub proof fn lemma_be32_bound(b: Seq<u8>)
    ensures
        0 <= be32(b) <= u32::MAX,
{
}

/// Reads four bytes as one big-endian `u32`.
pub fn u8_arr_to_u32(arr: &[u8]) -> (value: u32)
    requires
        arr@.len() == 4,
    ensures
        value == be32(arr@),
{
    let a: u8 = arr[0];
    let b: u8 = arr[1];
    let c: u8 = arr[2];
    let d: u8 = arr[3];
    let b1: u32 = (a as u32) << 24;
    let b2: u32 = (b as u32) << 16;
    let b3: u32 = (c as u32) << 8;
    let b4: u32 = d as u32;
    assert(((a as u32) << 24) | ((b as u32) << 16) | ((c as u32) << 8) | (d as u32) == a
        * 0x100_0000 + b * 0x1_0000 + c * 0x100 + d) by (bit_vector);
    b1 | b2 | b3 | b4
}

/// Reads three bytes as one big-endian number, which is below `2^24`.
pub fn u8_arr_to_u24(arr: &[u8]) -> (value: u32)
    requires
        arr@.len() == 3,
    ensures
        value == be24(arr@),
{
    let a: u8 = arr[0];
    let b: u8 = arr[1];
    let c: u8 = arr[2];
    let b1: u32 = (a as u32) << 16;
    let b2: u32 = (b as u32) << 8;
    let b3: u32 = c as u32;
    assert(((a as u32) << 16) | ((b as u32) << 8) | (c as u32) == a * 0x1_0000 + b * 0x100 + c)
        by (bit_vector);
    b1 | b2 | b3
}

/// Whether `data` holds `len` bytes from `offset` on.
pub open spec fn in_bounds(data: Seq<u8>, offset: int, len: int) -> bool {
    0 <= offset && 0 <= len && offset + len <= data.len()
}

/// The `len` bytes of `data` from `offset` on.
pub open spec fn block(data: Seq<u8>, offset: int, len: int) -> Seq<u8>
    recommends
        in_bounds(data, offset, len),
{
    data.subrange(offset, offset + len)
}

/// Copies the `N` bytes of `data` from `start` on into an array.
pub fn array_at<const N: usize>(data: &[u8], start: usize) -> (a: [u8; N])
    requires
        start + N <= data@.len(),
    ensures
        a@ == block(data@, start as int, N as int),
{
    let size: usize = data.len();
    let mut a: [u8; N] = [0u8; N];
    let mut i: usize = 0;
    while i < N
        invariant
            i <= N,
            start + N <= size,
            size == data@.len(),
            a@.len() == N,
            forall|j: int| 0 <= j < i ==> a@[j] == data@[start + j],
        decreases N - i,
    {
        a[i] = data[start + i];
        i = i + 1;
    }
    assert(a@ =~= block(data@, start as int, N as int));
    a
}

/// What reading `len` bytes at `offset` gives: the block, or an I/O fault
/// where the image ends before it.
pub open spec fn spec_read(data: Seq<u8>, offset: int, len: int) -> Result<Seq<u8>, Fault> {
    if in_bounds(data, offset, len) {
        Ok(block(data, offset, len))
    } else {
        Err(Fault::Io)
    }
}

/// Reads exactly `len` bytes at `offset`.
pub fn read_exact_at<'a>(data: &'a [u8], offset: u64, len: usize) -> (r: Result<
    &'a [u8],
    ImageError,
>)
    ensures
        view_result(r) == spec_read(data@, offset as int, len as int),
{
    let size: usize = data.len();
    if offset > size as u64 || len > size - offset as usize {
        return Err(ImageError::IOError);
    }
    let start: usize = offset as usize;
    Ok(slice_subrange(data, start, start + len))
}

/// Where the run of non-zero bytes that begins at `start` ends: at the first
/// zero byte from `start` on, or at the end of `data`.
pub open spec fn run_end(data: Seq<u8>, start: int) -> int
    decreases data.len() - start,
{
    if 0 <= start < data.len() && data[start] != 0 {
        run_end(data, start + 1)
    } else {
        start
    }
}

/// The bytes of the zero-terminated string at `start`, without the zero.
/// It is empty where `start` is at or beyond the end of `data`, and runs to
/// the end of `data` where no zero byte follows.
pub open spec fn c_string(data: Seq<u8>, start: int) -> Seq<u8> {
    if 0 <= start < data.len() {
        data.subrange(start, run_end(data, start))
    } else {
        Seq::empty()
    }
}

/// `run_end` by what it is, not by how it is found: no byte of the run is
/// zero, and the run stops at a zero byte or at the end.
pub proof fn lemma_run_end(data: Seq<u8>, start: int)
    requires
        0 <= start <= data.len(),
    ensures
        start <= run_end(data, start) <= data.len(),
        forall|i: int| start <= i < run_end(data, start) ==> data[i] != 0,
        run_end(data, start) < data.len() ==> data[run_end(data, start)] == 0,
    decreases data.len() - start,
{
    if start < data.len() && data[start] != 0 {
        lemma_run_end(data, start + 1);
    }
}

/// What reading the string at `start` gives: its text, or the fault of a
/// name that is not UTF-8.
pub open spec fn spec_string(data: Seq<u8>, start: int) -> Result<Seq<char>, Fault> {
    if valid_utf8(c_string(data, start)) {
        Ok(decode_utf8(c_string(data, start)))
    } else {
        Err(Fault::InvalidHeader(BAD_FILE_NAME@))
    }
}

/// Reads the zero-terminated UTF-8 string that begins at `ofst`.
pub fn read_string(data: &[u8], ofst: u64) -> (r: Result<String, ImageError>)
    ensures
        view_result(r) == spec_string(data@, ofst as int),
{
    let size: usize = data.len();
    let start: usize = if ofst < size as u64 {
        ofst as usize
    } else {
        size
    };
    let mut end: usize = start;
    while end < size && data[end] != 0
        invariant
            start <= end <= size,
            size == data@.len(),
            run_end(data@, start as int) == run_end(data@, end as int),
        decreases size - end,
    {
        end = end + 1;
    }
    let bytes: Vec<u8> = slice_to_vec(slice_subrange(data, start, end));
    assert(bytes@ == c_string(data@, ofst as int));
    match string_from_utf8(bytes) {
        Some(name) => Ok(name),
        None => Err(ImageError::invalid_header(BAD_FILE_NAME)),
    }
}

} // verus!
