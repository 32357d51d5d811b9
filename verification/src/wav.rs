//! WAV container reading for the offline pipeline.
//!
//! The offline pipeline accepts only 48000 Hz, stereo, 16-bit PCM input;
//! anything else is rejected before a single byte reaches the transport.
//! The parser walks the RIFF chunk list (word-aligned, sizes little-endian)
//! for the format and data chunks.

use vstd::prelude::*;

verus! {

/// The format fields of a WAV file, with the position of its sample data.
#[derive(Clone, Copy, Debug, PartialEq, Eq)]
pub struct WavFormat {
    pub audio_format: u16,
    pub channels: u16,
    pub sample_rate: u32,
    pub bits_per_sample: u16,
    pub data_start: usize,
    pub data_len: usize,
}

/// Why an offline input was rejected: the bytes are not a readable WAV
/// container, or they are one of an unsupported format.
#[derive(Clone, Copy, Debug, PartialEq, Eq)]
pub enum FormatError {
    Malformed,
    Unsupported,
}

/// The little-endian 16-bit value at offset `i`.
pub open spec fn le16(b: Seq<u8>, i: int) -> int {
    b[i] as int + 256 * (b[i + 1] as int)
}

/// The little-endian 32-bit value at offset `i`.
pub open spec fn le32(b: Seq<u8>, i: int) -> int {
    b[i] as int + 256 * (b[i + 1] as int) + 65536 * (b[i + 2] as int) + 16777216 * (b[i
        + 3] as int)
}

/// The four-byte tag of the format chunk, `fmt` and a space.
pub open spec fn fmt_chunk_id() -> Seq<u8> {
    seq![0x66u8, 0x6du8, 0x74u8, 0x20u8]
}

/// The four-byte tag of the sample-data chunk, `data`.
pub open spec fn data_chunk_id() -> Seq<u8> {
    seq![0x64u8, 0x61u8, 0x74u8, 0x61u8]
}

/// Whether the buffer opens with a RIFF/WAVE container header.
pub open spec fn has_riff_header(b: Seq<u8>) -> bool {
    &&& b.len() >= 12
    &&& b[0] == 0x52u8 && b[1] == 0x49u8 && b[2] == 0x46u8 && b[3] == 0x46u8
    &&& b[8] == 0x57u8 && b[9] == 0x41u8 && b[10] == 0x56u8 && b[11] == 0x45u8
}

/// The first chunk tagged `id` at or after offset `p`: its body offset and
/// size. Chunks are walked by their little-endian sizes, padded to even
/// offsets; a walk that runs past the end of the buffer finds nothing.
pub open spec fn find_chunk(b: Seq<u8>, p: int, id: Seq<u8>) -> Option<(int, int)>
    decreases b.len() - p,
{
    if p < 0 || p + 8 > b.len() {
        None
    } else {
        let size = le32(b, p + 4);
        if b.subrange(p, p + 4) == id {
            if p + 8 + size <= b.len() {
                Some((p + 8, size))
            } else {
                None
            }
        } else {
            let next = p + 8 + size + (if size % 2 == 1 {
                1int
            } else {
                0int
            });
            if next <= b.len() {
                find_chunk(b, next, id)
            } else {
                None
            }
        }
    }
}

/// The format of a WAV buffer, when it is one: a RIFF/WAVE header, a
/// format chunk of at least the sixteen PCM format bytes, and a data
/// chunk.
pub open spec fn parsed_wav(b: Seq<u8>) -> Option<WavFormat> {
    if !has_riff_header(b) {
        None
    } else {
        let fmt = find_chunk(b, 12, fmt_chunk_id());
        let data = find_chunk(b, 12, data_chunk_id());
        if fmt is Some && data is Some && fmt.unwrap().1 >= 16 {
            let fs = fmt.unwrap().0;
            Some(
                WavFormat {
                    audio_format: le16(b, fs) as u16,
                    channels: le16(b, fs + 2) as u16,
                    sample_rate: le32(b, fs + 4) as u32,
                    bits_per_sample: le16(b, fs + 14) as u16,
                    data_start: data.unwrap().0 as usize,
                    data_len: data.unwrap().1 as usize,
                },
            )
        } else {
            None
        }
    }
}

/// The one format the offline pipeline accepts: PCM, 48000 Hz, stereo,
/// 16-bit.
pub open spec fn is_supported_format(f: WavFormat) -> bool {
    f.audio_format == 1 && f.sample_rate == 48000 && f.channels == 2 && f.bits_per_sample == 16
}

/// Reads the little-endian 32-bit value at `i`.
fn read_le32(data: &Vec<u8>, i: usize) -> (v: u32)
    requires
        i + 4 <= data.len(),
    ensures
        v as int == le32(data@, i as int),
{
    data[i] as u32 + (data[i + 1] as u32) * 256 + (data[i + 2] as u32) * 65536 + (data[i
        + 3] as u32) * 16777216
}

/// Reads the little-endian 16-bit value at `i`.
fn read_le16(data: &Vec<u8>, i: usize) -> (v: u16)
    requires
        i + 2 <= data.len(),
    ensures
        v as int == le16(data@, i as int),
{
    data[i] as u16 + (data[i + 1] as u16) * 256
}

/// Walks the chunk list for the first chunk tagged with the four given
/// bytes, returning its body offset and size.
fn find_chunk_at(data: &Vec<u8>, id0: u8, id1: u8, id2: u8, id3: u8) -> (r: Option<(usize, usize)>)
    requires
        data@.len() >= 12,
    ensures
        ({
            let id = seq![id0, id1, id2, id3];
            &&& (r is Some <==> find_chunk(data@, 12, id) is Some)
            &&& (r matches Some(pair) ==> find_chunk(data@, 12, id) == Some(
                (pair.0 as int, pair.1 as int),
            ) && pair.0 + pair.1 <= data.len() && pair.0 >= 20)
        }),
{
    let ghost id = seq![id0, id1, id2, id3];
    proof {
        assert(id.len() == 4 && id[0] == id0 && id[1] == id1 && id[2] == id2 && id[3] == id3);
    }
    let n = data.len();
    let mut p: usize = 12;
    loop
        invariant
            12 <= p,
            n == data.len(),
            n >= 12,
            id == seq![id0, id1, id2, id3],
            find_chunk(data@, 12, id) == find_chunk(data@, p as int, id),
        decreases n - p,
    {
        if n - 8 < p {
            proof {
                assert(find_chunk(data@, p as int, id) is None);
            }
            return None;
        }
        let size = read_le32(data, p + 4);
        let rest = n - p - 8;
        let matched = data[p] == id0 && data[p + 1] == id1 && data[p + 2] == id2 && data[p + 3]
            == id3;
        proof {
            let sub = data@.subrange(p as int, p as int + 4);
            assert(sub.len() == 4 && sub[0] == data@[p as int] && sub[1] == data@[p as int + 1]
                && sub[2] == data@[p as int + 2] && sub[3] == data@[p as int + 3]);
            if matched {
                assert(sub =~= id);
            } else {
                assert(sub != id);
            }
        }
        if matched {
            if size as usize <= rest {
                return Some((p + 8, size as usize));
            } else {
                proof {
                    assert(find_chunk(data@, p as int, id) is None);
                }
                return None;
            }
        } else {
            let pad: usize = if size % 2 == 1 {
                1
            } else {
                0
            };
            let ghost next = p as int + 8 + size as int + pad as int;
            if size as usize <= rest && pad <= rest - size as usize {
                proof {
                    assert(next <= n);
                    assert(find_chunk(data@, p as int, id) == find_chunk(data@, next, id));
                }
                p = p + 8 + size as usize + pad;
            } else {
                proof {
                    assert(next > n);
                    assert(find_chunk(data@, p as int, id) is None);
                }
                return None;
            }
        }
    }
}

/// Parses the format of a WAV buffer, failing on anything that is not a
/// well-formed RIFF/WAVE container with PCM format and data chunks.
pub fn parse_wav(data: &Vec<u8>) -> (r: Result<WavFormat, FormatError>)
    ensures
        r is Ok <==> parsed_wav(data@) is Some,
        r matches Ok(f) ==> parsed_wav(data@) == Some(f),
        r is Err ==> r == Err::<WavFormat, FormatError>(FormatError::Malformed),
{
    if data.len() < 12 {
        return Err(FormatError::Malformed);
    }
    let riff = data[0] == 0x52 && data[1] == 0x49 && data[2] == 0x46 && data[3] == 0x46 && data[8]
        == 0x57 && data[9] == 0x41 && data[10] == 0x56 && data[11] == 0x45;
    if !riff {
        return Err(FormatError::Malformed);
    }
    let fmt = find_chunk_at(data, 0x66, 0x6d, 0x74, 0x20);
    let dat = find_chunk_at(data, 0x64, 0x61, 0x74, 0x61);
    match (fmt, dat) {
        (Some((fs, fsize)), Some((ds, dsize))) => {
            if fsize >= 16 {
                Ok(
                    WavFormat {
                        audio_format: read_le16(data, fs),
                        channels: read_le16(data, fs + 2),
                        sample_rate: read_le32(data, fs + 4),
                        bits_per_sample: read_le16(data, fs + 14),
                        data_start: ds,
                        data_len: dsize,
                    },
                )
            } else {
                Err(FormatError::Malformed)
            }
        },
        _ => Err(FormatError::Malformed),
    }
}

/// Accepts a WAV buffer for the offline pipeline if and only if it parses
/// and carries PCM at 48000 Hz, stereo, 16-bit; reports which of the two
/// checks failed.
pub fn check_offline_input(data: &Vec<u8>) -> (r: Result<WavFormat, FormatError>)
    ensures
        r is Ok <==> parsed_wav(data@) is Some && is_supported_format(parsed_wav(data@).unwrap()),
        r matches Ok(f) ==> parsed_wav(data@) == Some(f),
        parsed_wav(data@) is None ==> r == Err::<WavFormat, FormatError>(FormatError::Malformed),
        parsed_wav(data@) is Some && !is_supported_format(parsed_wav(data@).unwrap()) ==> r
            == Err::<WavFormat, FormatError>(FormatError::Unsupported),
{
    match parse_wav(data) {
        Ok(f) => {
            if f.audio_format == 1 && f.sample_rate == 48000 && f.channels == 2
                && f.bits_per_sample == 16 {
                Ok(f)
            } else {
                Err(FormatError::Unsupported)
            }
        },
        Err(e) => Err(e),
    }
}

} // verus!
