//! A look at a file's bytes before they go to the decoder library.
//!
//! The decoder library reports most malformed input as an error value, and
//! not all of it. Its probe looks for a container at every place in the
//! bytes and reads any ID3v2 tag that it meets on the way, and the tag
//! reader panics on some tags. Its WAV reader panics on a format chunk that
//! declares a sample rate of 0, or the extensible format with samples of 0
//! bits. Where it is built with overflow checks it also panics on some
//! ADPCM format chunks, on extensible ones with more than 31 channels or
//! with the highest bit of the channel mask set, and where its count of the
//! bytes that the chunks declare comes within 8 of 2^32. The count can get
//! there in two ways: through bytes that are really there, or through an
//! extensible format chunk that declares more than the 40 bytes that the
//! reader reads of it. Every other chunk is read or skipped to its declared
//! end, or ends the reading; only of a floating-point format chunk at the
//! end of the file the reader counts up to 24 bytes that are not there.
//!
//! For each entry of an information list the reader sets aside as much
//! memory as the entry declares, before it reads the entry, and an entry
//! may declare as much as its list does. A request that the machine cannot
//! meet ends the process, and on a machine with 32-bit addresses a request
//! for half of 2^32 bytes or more panics.
//!
//! So only bytes that pass this screen are handed on: they begin with a WAV
//! header, so that the probe finds the container at the first byte and
//! reads no tag; they are fewer than 2^32 - 48; they hold no information
//! list that declares more bytes than follow it; and they hold no format
//! chunk of the kinds above. Lists and format chunks are looked for at
//! every place in the bytes, so every file that holds such a chunk is
//! refused, and so are the few that hold the same bytes by chance.

use vstd::prelude::*;
use crate::source::OpenError;

verus! {

/// Whether the bytes `a b c d` stand at `at`.
pub open spec fn tag_at(bytes: Seq<u8>, at: int, a: u8, b: u8, c: u8, d: u8) -> bool {
    &&& 0 <= at
    &&& at + 4 <= bytes.len()
    &&& bytes[at] == a
    &&& bytes[at + 1] == b
    &&& bytes[at + 2] == c
    &&& bytes[at + 3] == d
}

/// Whether `bytes` begin as a WAV file does: `RIFF`, four bytes of length,
/// `WAVE`.
pub open spec fn starts_as_wav(bytes: Seq<u8>) -> bool {
    tag_at(bytes, 0, 0x52, 0x49, 0x46, 0x46) && tag_at(bytes, 8, 0x57, 0x41, 0x56, 0x45)
}

/// Whether a format chunk begins at `at`: the tag `fmt `.
pub open spec fn format_chunk_at(bytes: Seq<u8>, at: int) -> bool {
    tag_at(bytes, at, 0x66, 0x6d, 0x74, 0x20)
}

/// Whether a format chunk with a sample rate of 0 begins at `at`. Behind the
/// tag stand four bytes of length, two of format, two of channels, and then
/// the rate.
pub open spec fn zero_rate_at(bytes: Seq<u8>, at: int) -> bool {
    format_chunk_at(bytes, at) && tag_at(bytes, at + 12, 0, 0, 0, 0)
}

/// The most bytes that a file may have: one fewer than 2^32 - 48.
pub const LENGTH_LIMIT: usize = 0xffff_ffd0;

/// The length of an extensible format chunk, which is all that the reader
/// reads of one.
pub const EXTENSIBLE_LEN: u8 = 40;

/// Whether the chunk whose tag stands at `at` declares more than
/// `EXTENSIBLE_LEN` bytes. The length stands 4 bytes behind the tag, with
/// the low byte first.
pub open spec fn overlong_at(bytes: Seq<u8>, at: int) -> bool {
    ||| bytes[at + 4] > EXTENSIBLE_LEN
    ||| bytes[at + 5] != 0
    ||| bytes[at + 6] != 0
    ||| bytes[at + 7] != 0
}

/// The length that the chunk whose tag stands at `at` declares: the four
/// bytes behind the tag, the low byte first.
pub open spec fn declared_len(bytes: Seq<u8>, at: int) -> int {
    bytes[at + 4] + 0x100 * bytes[at + 5] + 0x1_0000 * bytes[at + 6] + 0x100_0000 * bytes[at + 7]
}

/// Whether an information list begins at `at` that declares more bytes than
/// follow it: the tag `LIST`, four bytes of length, and the form `INFO`.
pub open spec fn overrun_list_at(bytes: Seq<u8>, at: int) -> bool {
    &&& tag_at(bytes, at, 0x4c, 0x49, 0x53, 0x54)
    &&& tag_at(bytes, at + 8, 0x49, 0x4e, 0x46, 0x4f)
    &&& at + 8 + declared_len(bytes, at) > bytes.len()
}

/// Whether `bytes` hold, at any place, an information list that declares
/// more bytes than follow it.
pub open spec fn declares_overrun_list(bytes: Seq<u8>) -> bool {
    exists|at: int| overrun_list_at(bytes, at)
}

/// Whether a format chunk that no decoder is made for begins at `at`. The
/// format stands 8 bytes behind the tag, the channel count 10, the bits of
/// a sample 22 and, in the extensible format, the channel mask 28 bytes
/// behind it, each with the low byte first. Unfit are the two ADPCM
/// formats, 2 and 0x11, and the extensible format, 0xfffe, where it
/// declares more than 40 bytes, samples of 0 bits or more than 31 channels,
/// or has the highest bit of the mask set.
pub open spec fn unfit_format_at(bytes: Seq<u8>, at: int) -> bool {
    &&& format_chunk_at(bytes, at)
    &&& at + 24 <= bytes.len()
    &&& {
        ||| bytes[at + 8] == 0x02 && bytes[at + 9] == 0
        ||| bytes[at + 8] == 0x11 && bytes[at + 9] == 0
        ||| bytes[at + 8] == 0xfe && bytes[at + 9] == 0xff && {
            ||| overlong_at(bytes, at)
            ||| bytes[at + 22] == 0 && bytes[at + 23] == 0
            ||| bytes[at + 10] > 31
            ||| bytes[at + 11] != 0
            ||| at + 32 <= bytes.len() && bytes[at + 31] >= 0x80
        }
    }
}

/// Whether `bytes` hold a format chunk with a sample rate of 0 at any place.
pub open spec fn declares_zero_rate(bytes: Seq<u8>) -> bool {
    exists|at: int| zero_rate_at(bytes, at)
}

/// Whether `bytes` hold a format chunk that no decoder is made for at any
/// place.
pub open spec fn declares_unfit_format(bytes: Seq<u8>) -> bool {
    exists|at: int| unfit_format_at(bytes, at)
}

/// Why `bytes` are not handed to the decoder library, or `None` where they
/// are: bytes that do not begin as a WAV file, that are too many for one or
/// that hold a list longer than the file are not recognised, a sample rate
/// of 0 is no time base, and for an unfit format there is no decoder.
pub open spec fn screen_spec(bytes: Seq<u8>) -> Option<OpenError> {
    if !starts_as_wav(bytes) || bytes.len() >= LENGTH_LIMIT || declares_overrun_list(bytes) {
        Some(OpenError::Unrecognized)
    } else if declares_zero_rate(bytes) {
        Some(OpenError::NoTimeBase)
    } else if declares_unfit_format(bytes) {
        Some(OpenError::NoDecoder)
    } else {
        None
    }
}

/// Whether the bytes `a b c d` stand at `at`.
fn tag(bytes: &Vec<u8>, at: usize, a: u8, b: u8, c: u8, d: u8) -> (r: bool)
    ensures
        r == tag_at(bytes@, at as int, a, b, c, d),
{
    let n = bytes.len();
    if at > n || n - at < 4 {
        false
    } else {
        bytes[at] == a && bytes[at + 1] == b && bytes[at + 2] == c && bytes[at + 3] == d
    }
}

/// Whether a format chunk with a sample rate of 0 begins at `at`.
fn zero_rate(bytes: &Vec<u8>, at: usize) -> (r: bool)
    requires
        at < bytes@.len(),
    ensures
        r == zero_rate_at(bytes@, at as int),
{
    if bytes.len() - at < 16 {
        false
    } else {
        tag(bytes, at, 0x66, 0x6d, 0x74, 0x20) && tag(bytes, at + 12, 0, 0, 0, 0)
    }
}

/// Whether a format chunk that no decoder is made for begins at `at`.
fn unfit_format(bytes: &Vec<u8>, at: usize) -> (r: bool)
    requires
        at < bytes@.len(),
    ensures
        r == unfit_format_at(bytes@, at as int),
{
    let n = bytes.len();
    if n - at < 24 || !tag(bytes, at, 0x66, 0x6d, 0x74, 0x20) {
        return false;
    }
    let low = bytes[at + 8];
    let high = bytes[at + 9];
    if (low == 0x02 || low == 0x11) && high == 0 {
        return true;
    }
    if !(low == 0xfe && high == 0xff) {
        return false;
    }
    if bytes[at + 4] > EXTENSIBLE_LEN || bytes[at + 5] != 0 || bytes[at + 6] != 0 || bytes[at + 7]
        != 0 {
        return true;
    }
    if bytes[at + 22] == 0 && bytes[at + 23] == 0 {
        return true;
    }
    if bytes[at + 10] > 31 || bytes[at + 11] != 0 {
        return true;
    }
    n - at >= 32 && bytes[at + 31] >= 0x80
}

/// Whether an information list begins at `at` that declares more bytes than
/// follow it.
fn overrun_list(bytes: &Vec<u8>, at: usize) -> (r: bool)
    requires
        at < bytes@.len(),
    ensures
        r == overrun_list_at(bytes@, at as int),
{
    let n = bytes.len();
    if n - at < 12 || !tag(bytes, at, 0x4c, 0x49, 0x53, 0x54) || !tag(
        bytes,
        at + 8,
        0x49,
        0x4e,
        0x46,
        0x4f,
    ) {
        return false;
    }
    let declared: u64 = bytes[at + 4] as u64 + 0x100 * (bytes[at + 5] as u64) + 0x1_0000 * (bytes[at
        + 6] as u64) + 0x100_0000 * (bytes[at + 7] as u64);
    let follow: u64 = (n - at) as u64;
    8 + declared > follow
}

/// Looks at `bytes` and says why they are not handed to the decoder
/// library, or `None` where they are.
pub fn screen(bytes: &Vec<u8>) -> (r: Option<OpenError>)
    ensures
        r == screen_spec(bytes@),
{
    let n = bytes.len();
    if n >= LENGTH_LIMIT || !(tag(bytes, 0, 0x52, 0x49, 0x46, 0x46) && tag(
        bytes,
        8,
        0x57,
        0x41,
        0x56,
        0x45,
    )) {
        return Some(OpenError::Unrecognized);
    }
    let mut overrun = false;
    let mut no_rate = false;
    let mut unfit = false;
    let mut at: usize = 0;
    while at < n
        invariant
            n == bytes@.len(),
            at <= n,
            overrun == exists|k: int| 0 <= k < at && overrun_list_at(bytes@, k),
            no_rate == exists|k: int| 0 <= k < at && zero_rate_at(bytes@, k),
            unfit == exists|k: int| 0 <= k < at && unfit_format_at(bytes@, k),
        decreases n - at,
    {
        let list = overrun_list(bytes, at);
        let rate = zero_rate(bytes, at);
        let format = unfit_format(bytes, at);
        proof {
            if list {
                assert(0 <= at < at + 1 && overrun_list_at(bytes@, at as int));
            }
            if rate {
                assert(0 <= at < at + 1 && zero_rate_at(bytes@, at as int));
            }
            if format {
                assert(0 <= at < at + 1 && unfit_format_at(bytes@, at as int));
            }
        }
        overrun = overrun || list;
        no_rate = no_rate || rate;
        unfit = unfit || format;
        at += 1;
    }
    if overrun {
        Some(OpenError::Unrecognized)
    } else if no_rate {
        Some(OpenError::NoTimeBase)
    } else if unfit {
        Some(OpenError::NoDecoder)
    } else {
        None
    }
}

} // verus!
