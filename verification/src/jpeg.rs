//! The first frame header of a JPEG file, as far as the texture loader has to
//! know it before it hands the file to a decoder.
//!
//! A JPEG file is a run of segments, each led in by a marker: a byte `0xFF`,
//! any number of further `0xFF` bytes, and a byte that is neither zero nor
//! `0xFF`. The segments before the first frame header hold tables, comments
//! and application data and say how long they are. A lossless frame may have
//! samples of two to sixteen bits. The loader takes bytes, so of the lossless
//! frames it takes only those with samples of eight bits.

use vstd::prelude::*;
use vstd::slice::*;

verus! {

/// The byte that leads a marker in.
pub const MARKER_LEAD: u8 = 0xFF;

/// The marker at the start of a file.
pub const START_OF_IMAGE: u8 = 0xD8;

/// The marker of a lossless frame header.
pub const LOSSLESS_FRAME: u8 = 0xC3;

/// How many bits the samples are wide that the loader takes.
pub const BYTE_SAMPLES: u8 = 8;

/// The markers of the segments that may stand before the frame header and are
/// passed over by their length: quantization tables, Huffman tables, the
/// restart interval, comments and application data.
pub open spec fn is_passed_over(marker: u8) -> bool {
    marker == 0xDB || marker == 0xC4 || marker == 0xDD || marker == 0xFE || 0xE0 <= marker <= 0xEF
}

/// The length that the segment says it has whose marker is followed by the
/// byte at `at`: two bytes, the high one first. The length counts these two
/// bytes and what follows them in the segment.
pub open spec fn segment_length(bytes: Seq<u8>, at: int) -> int
    recommends
        0 <= at,
        at + 1 < bytes.len(),
{
    bytes[at] * 256 + bytes[at + 1]
}

/// Whether the first frame header that is found from `pos` on is a lossless
/// one with samples that are not eight bits wide. `after_lead` says whether
/// the byte before `pos` led a marker in.
///
/// Bytes are passed until one leads a marker in. A zero after the lead is no
/// marker. A segment that is passed over must say a length of two at least
/// and end within the file. Any other marker ends the search: a frame header
/// of another kind, or a marker before which a frame header had to stand.
pub open spec fn wide_frame_from(bytes: Seq<u8>, pos: int, after_lead: bool) -> bool
    decreases bytes.len() - pos,
{
    if pos < 0 || pos >= bytes.len() {
        false
    } else if !after_lead {
        wide_frame_from(bytes, pos + 1, bytes[pos] == MARKER_LEAD)
    } else if bytes[pos] == MARKER_LEAD {
        wide_frame_from(bytes, pos + 1, true)
    } else if bytes[pos] == 0 {
        wide_frame_from(bytes, pos + 1, false)
    } else if bytes[pos] == LOSSLESS_FRAME {
        pos + 3 < bytes.len() && bytes[pos + 3] != BYTE_SAMPLES
    } else if is_passed_over(bytes[pos]) {
        &&& pos + 2 < bytes.len()
        &&& segment_length(bytes, pos + 1) >= 2
        &&& pos + 1 + segment_length(bytes, pos + 1) <= bytes.len()
        &&& wide_frame_from(bytes, pos + 1 + segment_length(bytes, pos + 1), false)
    } else {
        false
    }
}

/// Whether `bytes` start as a JPEG file does and the first frame header is a
/// lossless one with samples that are not eight bits wide.
pub open spec fn is_wide_jpeg(bytes: Seq<u8>) -> bool {
    &&& bytes.len() >= 2
    &&& bytes[0] == MARKER_LEAD
    &&& bytes[1] == START_OF_IMAGE
    &&& wide_frame_from(bytes, 2, false)
}

/// Decides [`is_passed_over`].
pub fn passes_over(marker: u8) -> (b: bool)
    ensures
        b == is_passed_over(marker),
{
    marker == 0xDB || marker == 0xC4 || marker == 0xDD || marker == 0xFE || (0xE0 <= marker
        && marker <= 0xEF)
}

/// Decides [`is_wide_jpeg`].
pub fn has_wide_frame(bytes: &[u8]) -> (b: bool)
    ensures
        b == is_wide_jpeg(bytes@),
{
    let n = bytes.len();
    if n < 2 || bytes[0] != MARKER_LEAD || bytes[1] != START_OF_IMAGE {
        return false;
    }
    let mut pos: usize = 2;
    let mut after_lead = false;
    while pos < n
        invariant
            n == bytes@.len(),
            2 <= pos <= n,
            is_wide_jpeg(bytes@) == wide_frame_from(bytes@, pos as int, after_lead),
        decreases n - pos,
    {
        let byte = bytes[pos];
        if !after_lead {
            after_lead = byte == MARKER_LEAD;
            pos += 1;
        } else if byte == MARKER_LEAD {
            pos += 1;
        } else if byte == 0 {
            after_lead = false;
            pos += 1;
        } else if byte == LOSSLESS_FRAME {
            return n - pos > 3 && bytes[pos + 3] != BYTE_SAMPLES;
        } else if passes_over(byte) {
            if n - pos <= 2 {
                return false;
            }
            let length: usize = bytes[pos + 1] as usize * 256 + bytes[pos + 2] as usize;
            if length < 2 || length > n - pos - 1 {
                return false;
            }
            pos = pos + 1 + length;
            after_lead = false;
        } else {
            return false;
        }
    }
    false
}

/// Bytes that do not start with the marker of a JPEG file hold no such frame.
pub proof fn lemma_other_files_are_not_wide(bytes: Seq<u8>)
    requires
        bytes.len() < 2 || bytes[0] != MARKER_LEAD || bytes[1] != START_OF_IMAGE,
    ensures
        !is_wide_jpeg(bytes),
{
}

} // verus!
