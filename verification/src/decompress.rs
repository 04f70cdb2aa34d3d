//! Detection of compressed input streams and reliable reading of stream headers.
use std::io::Read;
use vstd::prelude::*;

use crate::text::str_equals;

verus! {

/// Declares `std::io::Error` so that reads can report failures.
#[verifier::external_type_specification]
#[verifier::external_body]
pub struct ExIoError(std::io::Error);

/// The kind of compression detected at the start of an input stream.
#[derive(Clone, Copy, Debug, PartialEq, Eq, Structural)]
pub enum CompressionDetected {
    Uncompressed,
    Gzip,
    Zstd,
}

/// Calls `std::io::Read::read` on `reader` with the part of `buf` that starts at `start`.
/// As `Read::read` documents, a successful read returns a count no larger than that part;
/// the bytes of `buf` before `start` are outside the slice handed to `read`, so they are
/// unchanged. What the reader returns otherwise depends on its own state.
#[verifier::external_body]
fn read_at<R: Read>(reader: &mut R, buf: &mut [u8], start: usize) -> (r: std::io::Result<usize>)
    requires
        start <= old(buf)@.len(),
    ensures
        final(buf)@.len() == old(buf)@.len(),
        final(buf)@.subrange(0, start as int) == old(buf)@.subrange(0, start as int),
        r matches Ok(n) ==> n <= old(buf)@.len() - start,
{
    reader.read(&mut buf[start..])
}

/// Where `read_reliably` stands after a read: still reading with this many bytes in the
/// buffer, finished with this many bytes, or failed with the read's error.
#[derive(Debug)]
pub enum ReadState {
    Reading(usize),
    Finished(usize),
    Failed(std::io::Error),
}

/// The next state of `read_reliably`, which holds `nread` of `len` bytes, after a read of the
/// unfilled part of its buffer gave `outcome`: a read of zero bytes means the reader has reached
/// its end, so reading finishes with fewer bytes than the buffer holds; a read that fills the
/// buffer finishes it; any other read goes on; a failed read fails with its error.
pub fn next_read_state(nread: usize, len: usize, outcome: std::io::Result<usize>) -> (r: ReadState)
    requires
        nread < len,
        outcome matches Ok(n) ==> n <= len - nread,
    ensures
        match outcome {
            Ok(n) => if n == 0 {
                r matches ReadState::Finished(k) && k == nread
            } else if nread + n == len {
                r matches ReadState::Finished(k) && k == len
            } else {
                r matches ReadState::Reading(k) && k == nread + n
            },
            Err(e) => r matches ReadState::Failed(f) && f == e,
        },
        r matches ReadState::Finished(k) ==> (k < len <==> outcome matches Ok(0)),
        r matches ReadState::Reading(k) ==> nread < k < len,
{
    match outcome {
        Ok(0) => ReadState::Finished(nread),
        Ok(n) => {
            if nread + n == len {
                ReadState::Finished(len)
            } else {
                ReadState::Reading(nread + n)
            }
        },
        Err(e) => ReadState::Failed(e),
    }
}

/// Similar to `Read::read`, but loops in case of fragmented reads: each read is handed the part
/// of `buf` after the bytes read so far, and reading goes on (see `next_read_state`) until `buf`
/// is full, the reader reports the end of its data (a read of zero bytes), or a read fails,
/// whose error is returned.
///
/// An empty buffer needs no read: the count is zero and the reader is left as it was. Otherwise
/// on success the count of bytes read is returned, never more than `buf.len()`. What each read
/// returns depends on the reader's own state, so which bytes arrive, and when the reader ends
/// or fails, is not stated here.
pub fn read_reliably<R: Read>(reader: &mut R, buf: &mut [u8]) -> (r: std::io::Result<usize>)
    ensures
        final(buf)@.len() == old(buf)@.len(),
        old(buf)@.len() == 0 ==> (r matches Ok(0) && *final(reader) == *old(reader)),
        r matches Ok(n) ==> n <= old(buf)@.len(),
{
    let len = buf.len();
    if len == 0 {
        return Ok(0);
    }
    let mut nread: usize = 0;
    loop
        invariant
            len == buf@.len(),
            len == old(buf)@.len(),
            nread < len,
        decreases len - nread,
    {
        let outcome = read_at(reader, buf, nread);
        match next_read_state(nread, len, outcome) {
            ReadState::Reading(k) => nread = k,
            ReadState::Finished(k) => return Ok(k),
            ReadState::Failed(e) => return Err(e),
        }
    }
}

/// The file type that the `infer` crate detects for a header, by its extension.
pub uninterp spec fn inferred_extension(header: Seq<u8>) -> Option<Seq<char>>;

/// Calls `infer::get` on `header` and takes the extension of the detected file type.
/// The detection depends on the header bytes alone.
#[verifier::external_body]
fn infer_extension(header: &[u8]) -> (r: Option<&'static str>)
    ensures
        match r {
            Some(ext) => inferred_extension(header@) == Some(ext@),
            None => inferred_extension(header@) is None,
        },
{
    infer::get(header).map(|t| t.extension())
}

/// The compression that a detected file extension stands for.
pub open spec fn compression_of_extension(ext: Option<Seq<char>>) -> CompressionDetected {
    match ext {
        Some(e) => if e == "gz"@ {
            CompressionDetected::Gzip
        } else if e == "zst"@ {
            CompressionDetected::Zstd
        } else {
            CompressionDetected::Uncompressed
        },
        None => CompressionDetected::Uncompressed,
    }
}

/// Maps a detected file extension to the compression it stands for: `gz` is gzip,
/// `zst` is zstd, anything else (or nothing) is no compression.
pub fn compression_for_extension(ext: Option<&str>) -> (r: CompressionDetected)
    ensures
        r == compression_of_extension(
            match ext {
                Some(e) => Some(e@),
                None => None,
            },
        ),
{
    match ext {
        Some(e) => {
            if str_equals(e, "gz") {
                CompressionDetected::Gzip
            } else if str_equals(e, "zst") {
                CompressionDetected::Zstd
            } else {
                CompressionDetected::Uncompressed
            }
        },
        None => CompressionDetected::Uncompressed,
    }
}

/// Detects whether a stream whose first bytes are `header` is gzip- or zstd-compressed.
pub fn detect_compression(header: &[u8]) -> (r: CompressionDetected)
    ensures
        r == compression_of_extension(inferred_extension(header@)),
{
    let ext = infer_extension(header);
    compression_for_extension(ext)
}

} // verus!
