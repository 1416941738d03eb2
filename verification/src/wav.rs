//! The layout of a 16-bit PCM WAV file and its encoding.

use vstd::prelude::*;
use crate::math::two_pow;

verus! {

/// The low 16 bits of `x`, least significant byte first.
pub open spec fn le16(x: int) -> Seq<u8> {
    seq![(x % 256) as u8, (x / 256 % 256) as u8]
}

/// The low 32 bits of `x`, least significant byte first.
pub open spec fn le32(x: int) -> Seq<u8> {
    seq![
        (x % 256) as u8,
        (x / 256 % 256) as u8,
        (x / 256 / 256 % 256) as u8,
        (x / 256 / 256 / 256 % 256) as u8,
    ]
}

/// The chunk tag `RIFF`.
pub open spec fn tag_riff() -> Seq<u8> {
    seq![0x52u8, 0x49u8, 0x46u8, 0x46u8]
}

/// The form type `WAVE`.
pub open spec fn tag_wave() -> Seq<u8> {
    seq![0x57u8, 0x41u8, 0x56u8, 0x45u8]
}

/// The chunk tag `fmt ` (with its trailing space).
pub open spec fn tag_fmt() -> Seq<u8> {
    seq![0x66u8, 0x6du8, 0x74u8, 0x20u8]
}

/// The chunk tag `data`.
pub open spec fn tag_data() -> Seq<u8> {
    seq![0x64u8, 0x61u8, 0x74u8, 0x61u8]
}

/// The sub-format identifier of integer PCM in the extensible format.
pub open spec fn subtype_pcm() -> Seq<u8> {
    seq![
        0x01u8, 0x00u8, 0x00u8, 0x00u8, 0x00u8, 0x00u8, 0x10u8, 0x00u8,
        0x80u8, 0x00u8, 0x00u8, 0xaau8, 0x00u8, 0x38u8, 0x9bu8, 0x71u8,
    ]
}

/// Whether the plain PCM format chunk is written: at most two channels.
/// More channels take the extensible format chunk.
pub open spec fn plain_format(channels: u16) -> bool {
    channels <= 2
}

/// Length of everything before the samples: 44 bytes with the plain format
/// chunk, 68 with the extensible one.
pub open spec fn header_len(channels: u16) -> nat {
    if plain_format(channels) {
        44
    } else {
        68
    }
}

/// The speaker mask of the extensible format: one bit per channel, for at
/// most 18 channels.
pub open spec fn channel_mask(channels: u16) -> nat {
    (two_pow(if channels > 18 { 18 } else { channels as nat }) - 1) as nat
}

/// The fields shared by both format chunks: channel count, sample rate,
/// bytes per second and block alignment.
pub open spec fn wave_format(sample_rate: u32, channels: u16) -> Seq<u8> {
    le16(channels as int) + le32(sample_rate as int) + le32(sample_rate * 2 * channels) + le16(
        2 * channels,
    )
}

/// The format chunk's size field and body.
pub open spec fn format_chunk(sample_rate: u32, channels: u16) -> Seq<u8> {
    if plain_format(channels) {
        le32(16) + le16(1) + wave_format(sample_rate, channels) + le16(16)
    } else {
        le32(40) + le16(0xfffe) + wave_format(sample_rate, channels) + le16(16) + le16(22) + le16(
            16,
        ) + le32(channel_mask(channels) as int) + subtype_pcm()
    }
}

/// A sample as an unsigned 16-bit number (two's complement).
pub open spec fn sample_bits(sample: i16) -> int {
    if sample < 0 {
        sample + 65536
    } else {
        sample as int
    }
}

/// The samples as bytes: two per sample, least significant byte first.
pub open spec fn sample_bytes(samples: Seq<i16>) -> Seq<u8> {
    Seq::new(2 * samples.len(), |i: int| le16(sample_bits(samples[i / 2]))[i % 2])
}

/// Everything before the samples, for `count` samples.
pub open spec fn wav_header(sample_rate: u32, channels: u16, count: nat) -> Seq<u8> {
    tag_riff() + le32(2 * count + header_len(channels) - 8) + tag_wave() + tag_fmt()
        + format_chunk(sample_rate, channels) + tag_data() + le32((2 * count) as int)
}

/// The bytes of a 16-bit integer PCM WAV file with the given interleaved
/// samples.
pub open spec fn wav_file(sample_rate: u32, channels: u16, samples: Seq<i16>) -> Seq<u8> {
    wav_header(sample_rate, channels, samples.len()) + sample_bytes(samples)
}

/// Whether the size fields of a WAV file can hold this audio: rate and
/// channel count positive, and the byte rate and the size that the header
/// records (the file without its first eight bytes) within 32 bits.
pub open spec fn fits_wav(sample_rate: u32, channels: u16, count: nat) -> bool {
    &&& sample_rate > 0
    &&& channels > 0
    &&& sample_rate * 2 * channels <= u32::MAX
    &&& 2 * count + header_len(channels) - 8 <= u32::MAX
}

/// The error type of the `hound` crate. Opaque.
#[verifier::external_type_specification]
#[verifier::external_body]
pub struct ExHoundError(hound::Error);

/// `hound::WavWriter` on an in-memory cursor: `new` with a 16-bit integer
/// format, `write_sample` for each sample, `finalize`. Within the bounds of
/// `fits_wav` the writer's arithmetic stays in range. Writing to memory does
/// not fail, so the one error is an unfinished frame: a sample count that is
/// no multiple of the channel count. On success the bytes are the header
/// (plain for up to two channels, extensible above) and the samples in
/// little-endian order.
#[verifier::external_body]
pub(crate) fn hound_write_pcm16(sample_rate: u32, channels: u16, samples: &[i16]) -> (r: Result<
    Vec<u8>,
    hound::Error,
>)
    requires
        fits_wav(sample_rate, channels, samples@.len()),
    ensures
        r is Ok <==> samples@.len() % (channels as nat) == 0,
        r matches Ok(bytes) ==> bytes@ == wav_file(sample_rate, channels, samples@),
{
    let spec = hound::WavSpec {
        channels,
        sample_rate,
        bits_per_sample: 16,
        sample_format: hound::SampleFormat::Int,
    };
    let mut cursor = std::io::Cursor::new(Vec::new());
    let mut writer = hound::WavWriter::new(&mut cursor, spec)?;
    for sample in samples.iter() {
        writer.write_sample(*sample)?;
    }
    writer.finalize()?;
    Ok(cursor.into_inner())
}

/// `hound::Error`'s `Display` text. Nothing is claimed of it.
#[verifier::external_body]
pub(crate) fn hound_error_text(error: &hound::Error) -> (text: String) {
    error.to_string()
}

/// The 16-bit number stored at `at`, least significant byte first.
pub open spec fn u16_at(bytes: Seq<u8>, at: int) -> int {
    bytes[at] + 256 * bytes[at + 1]
}

/// The 32-bit number stored at `at`, least significant byte first.
pub open spec fn u32_at(bytes: Seq<u8>, at: int) -> int {
    bytes[at] + 256 * bytes[at + 1] + 65536 * bytes[at + 2] + 16777216 * bytes[at + 3]
}

/// The signed sample stored at `at`.
pub open spec fn sample_at(bytes: Seq<u8>, at: int) -> i16 {
    if u16_at(bytes, at) >= 32768 {
        (u16_at(bytes, at) - 65536) as i16
    } else {
        u16_at(bytes, at) as i16
    }
}

/// Whether the four bytes at `at` are `tag`.
pub open spec fn tag_at(bytes: Seq<u8>, at: int, tag: Seq<u8>) -> bool {
    bytes.subrange(at, at + 4) == tag
}

/// Where the `data` tag stands, if the bytes start like a 16-bit PCM file
/// with a plain (36) or an extensible (60) format chunk.
pub open spec fn data_tag_offset(bytes: Seq<u8>) -> Option<int> {
    if bytes.len() < 44 || !tag_at(bytes, 0, tag_riff()) || !tag_at(bytes, 8, tag_wave())
        || !tag_at(bytes, 12, tag_fmt()) || u16_at(bytes, 34) != 16 {
        None
    } else if u32_at(bytes, 16) == 16 && u16_at(bytes, 20) == 1 {
        Some(36)
    } else if u32_at(bytes, 16) == 40 && u16_at(bytes, 20) == 0xfffe && bytes.len() >= 68 {
        Some(60)
    } else {
        None
    }
}

/// The sample rate, the channel count and the samples of a 16-bit PCM file
/// whose data chunk follows the format chunk and ends the file; `None` for
/// any other bytes.
pub open spec fn decoded(bytes: Seq<u8>) -> Option<(u32, u16, Seq<i16>)> {
    match data_tag_offset(bytes) {
        None => None,
        Some(at) => {
            let start = at + 8;
            let data_len = u32_at(bytes, at + 4);
            if tag_at(bytes, at, tag_data()) && data_len == bytes.len() - start && data_len % 2
                == 0 {
                Some(
                    (
                        u32_at(bytes, 24) as u32,
                        u16_at(bytes, 22) as u16,
                        Seq::new((data_len / 2) as nat, |i: int| sample_at(bytes, start + 2 * i)),
                    ),
                )
            } else {
                None
            }
        },
    }
}

/// Audio read back from a WAV file.
#[derive(Debug, Clone)]
pub struct WavAudio {
    /// Samples per second.
    pub sample_rate: u32,
    /// Number of interleaved channels.
    pub channels: u16,
    /// The interleaved samples.
    pub samples: Vec<i16>,
}

/// Read the 16-bit number at `at`.
fn read_u16(bytes: &[u8], at: usize) -> (v: u16)
    requires
        at + 2 <= bytes@.len(),
    ensures
        v == u16_at(bytes@, at as int),
{
    let low: u16 = bytes[at] as u16;
    let high: u16 = bytes[at + 1] as u16;
    low + 256 * high
}

/// Read the 32-bit number at `at`.
fn read_u32(bytes: &[u8], at: usize) -> (v: u32)
    requires
        at + 4 <= bytes@.len(),
    ensures
        v == u32_at(bytes@, at as int),
{
    let b0: u32 = bytes[at] as u32;
    let b1: u32 = bytes[at + 1] as u32;
    let b2: u32 = bytes[at + 2] as u32;
    let b3: u32 = bytes[at + 3] as u32;
    b0 + 256 * b1 + 65536 * b2 + 16777216 * b3
}

/// Whether the four bytes at `at` are the given ones.
fn has_tag(bytes: &[u8], at: usize, t0: u8, t1: u8, t2: u8, t3: u8) -> (same: bool)
    requires
        at + 4 <= bytes@.len(),
    ensures
        same == tag_at(bytes@, at as int, seq![t0, t1, t2, t3]),
{
    let same = bytes[at] == t0 && bytes[at + 1] == t1 && bytes[at + 2] == t2 && bytes[at + 3]
        == t3;
    proof {
        let part = bytes@.subrange(at as int, at + 4);
        let tag = seq![t0, t1, t2, t3];
        if same {
            assert(part =~= tag);
        } else {
            assert(part[0] == bytes@[at as int] && part[1] == bytes@[at + 1] && part[2]
                == bytes@[at + 2] && part[3] == bytes@[at + 3]);
            assert(tag[0] == t0 && tag[1] == t1 && tag[2] == t2 && tag[3] == t3);
        }
    }
    same
}

/// Read back a 16-bit PCM WAV file as `to_wav_bytes` writes it: the header
/// with a plain or an extensible format chunk, then the data chunk to the
/// end of the file. Other bytes give `None`.
pub fn decode_wav(bytes: &[u8]) -> (r: Option<WavAudio>)
    ensures
        match r {
            Some(audio) => decoded(bytes@) == Some(
                (audio.sample_rate, audio.channels, audio.samples@),
            ),
            None => decoded(bytes@) is None,
        },
{
    let len: usize = bytes.len();
    if len < 44 {
        return None;
    }
    if !has_tag(bytes, 0, 0x52, 0x49, 0x46, 0x46) || !has_tag(bytes, 8, 0x57, 0x41, 0x56, 0x45)
        || !has_tag(bytes, 12, 0x66, 0x6d, 0x74, 0x20) || read_u16(bytes, 34) != 16 {
        return None;
    }
    let chunk_size = read_u32(bytes, 16);
    let format = read_u16(bytes, 20);
    let at: usize = if chunk_size == 16 && format == 1 {
        36
    } else if chunk_size == 40 && format == 0xfffe && len >= 68 {
        60
    } else {
        return None;
    };
    let start: usize = at + 8;
    let data_len = read_u32(bytes, at + 4);
    if !has_tag(bytes, at, 0x64, 0x61, 0x74, 0x61) || data_len as u64 != (len - start) as u64
        || data_len % 2 != 0 {
        return None;
    }
    let count: usize = (len - start) / 2;
    let mut samples: Vec<i16> = Vec::new();
    let mut i: usize = 0;
    while i < count
        invariant
            i <= count,
            start + 2 * count == len == bytes@.len(),
            samples@.len() == i,
            forall|j: int| 0 <= j < i ==> samples@[j] == sample_at(bytes@, start + 2 * j),
        decreases count - i,
    {
        let bits: u16 = read_u16(bytes, start + 2 * i);
        let sample: i16 = if bits >= 32768 {
            (bits as i32 - 65536) as i16
        } else {
            bits as i16
        };
        samples.push(sample);
        i = i + 1;
    }
    let sample_rate = read_u32(bytes, 24);
    let channels = read_u16(bytes, 22);
    assert(samples@ =~= Seq::new(
        (data_len / 2) as nat,
        |i: int| sample_at(bytes@, start + 2 * i),
    ));
    Some(WavAudio { sample_rate, channels, samples })
}

/// A number within 16 bits is read back from its two bytes.
proof fn lemma_le16_reads_back(x: int)
    requires
        0 <= x < 65536,
    ensures
        le16(x).len() == 2,
        u16_at(le16(x), 0) == x,
{
    let q1 = x / 256;
    assert(x == 256 * q1 + x % 256);
    assert(0 <= q1 < 256);
    let b = le16(x);
    assert(b[0] == x % 256 && b[1] == q1);
}

/// A number within 32 bits is read back from its four bytes.
proof fn lemma_le32_reads_back(x: int)
    requires
        0 <= x < 0x1_0000_0000,
    ensures
        le32(x).len() == 4,
        u32_at(le32(x), 0) == x,
{
    let q1 = x / 256;
    let q2 = q1 / 256;
    let q3 = q2 / 256;
    assert(x == 256 * q1 + x % 256);
    assert(q1 == 256 * q2 + q1 % 256);
    assert(q2 == 256 * q3 + q2 % 256);
    assert(0 <= q3 < 256);
    assert(q3 % 256 == q3);
    let b = le32(x);
    assert(b[0] == x % 256 && b[1] == q1 % 256 && b[2] == q2 % 256 && b[3] == q3);
}

/// The header is as long as `header_len` says, and its fields stand where
/// the reader looks for them.
#[verifier::rlimit(40)]
proof fn lemma_header_fields(sample_rate: u32, channels: u16, count: nat)
    requires
        2 * count + header_len(channels) - 8 <= u32::MAX,
    ensures
        wav_header(sample_rate, channels, count).len() == header_len(channels),
        data_tag_offset(wav_header(sample_rate, channels, count)) == Some(
            header_len(channels) - 8,
        ),
        tag_at(
            wav_header(sample_rate, channels, count),
            header_len(channels) - 8,
            tag_data(),
        ),
        u32_at(wav_header(sample_rate, channels, count), header_len(channels) - 4) == 2 * count,
        u32_at(wav_header(sample_rate, channels, count), 24) == sample_rate,
        u16_at(wav_header(sample_rate, channels, count), 22) == channels,
{
    let h = wav_header(sample_rate, channels, count);
    let size = le32(2 * count + header_len(channels) - 8);
    let start = tag_riff() + size + tag_wave() + tag_fmt();
    let chunk = format_chunk(sample_rate, channels);
    let format = wave_format(sample_rate, channels);
    let end = le32((2 * count) as int);
    lemma_le32_reads_back((2 * count) as int);
    lemma_le32_reads_back(sample_rate as int);
    lemma_le16_reads_back(channels as int);
    lemma_le16_reads_back(16);
    assert(start.len() == 16);
    assert(format.len() == 12);
    assert(h =~= start + chunk + tag_data() + end);
    assert(start.subrange(0, 4) =~= tag_riff());
    assert(start.subrange(8, 12) =~= tag_wave());
    assert(start.subrange(12, 16) =~= tag_fmt());
    assert(u16_at(format, 0) == channels);
    assert(u32_at(format, 2) == sample_rate);
    if plain_format(channels) {
        lemma_le32_reads_back(16);
        lemma_le16_reads_back(1);
        assert(chunk =~= le32(16) + le16(1) + format + le16(16));
        assert(chunk.len() == 20);
        assert(h.len() == 44);
        assert(h.subrange(0, 4) =~= tag_riff());
        assert(h.subrange(8, 12) =~= tag_wave());
        assert(h.subrange(12, 16) =~= tag_fmt());
        assert(h.subrange(36, 40) =~= tag_data());
        assert(u32_at(h, 16) == u32_at(chunk, 0) == 16);
        assert(u16_at(h, 20) == u16_at(chunk, 4) == 1);
        assert(u16_at(h, 22) == u16_at(format, 0));
        assert(u32_at(h, 24) == u32_at(format, 2));
        assert(u16_at(h, 34) == u16_at(chunk, 18) == 16);
        assert(u32_at(h, 40) == u32_at(end, 0));
    } else {
        lemma_le32_reads_back(40);
        lemma_le16_reads_back(0xfffe);
        let tail = le16(22) + le16(16) + le32(channel_mask(channels) as int) + subtype_pcm();
        assert(tail.len() == 24);
        assert(chunk =~= le32(40) + le16(0xfffe) + format + le16(16) + tail);
        assert(chunk.len() == 44);
        assert(h.len() == 68);
        assert(h.subrange(0, 4) =~= tag_riff());
        assert(h.subrange(8, 12) =~= tag_wave());
        assert(h.subrange(12, 16) =~= tag_fmt());
        assert(h.subrange(60, 64) =~= tag_data());
        assert(u32_at(h, 16) == u32_at(chunk, 0) == 40);
        assert(u16_at(h, 20) == u16_at(chunk, 4) == 0xfffe);
        assert(u16_at(h, 22) == u16_at(format, 0));
        assert(u32_at(h, 24) == u32_at(format, 2));
        assert(u16_at(h, 34) == u16_at(chunk, 18) == 16);
        assert(u32_at(h, 64) == u32_at(end, 0));
    }
}

/// Reading back an encoded file gives the sample rate, the channel count
/// and every sample that went in: sixteen-bit audio survives the round trip
/// unchanged.
#[verifier::rlimit(40)]
pub proof fn lemma_wav_round_trip(sample_rate: u32, channels: u16, samples: Seq<i16>)
    requires
        2 * samples.len() + header_len(channels) - 8 <= u32::MAX,
    ensures
        decoded(wav_file(sample_rate, channels, samples)) == Some(
            (sample_rate, channels, samples),
        ),
{
    let count = samples.len();
    let h = wav_header(sample_rate, channels, count);
    let body = sample_bytes(samples);
    let file = wav_file(sample_rate, channels, samples);
    let start = header_len(channels) as int;
    lemma_header_fields(sample_rate, channels, count);
    assert(file.len() == start + 2 * count);
    assert forall|i: int| 0 <= i < start implies file[i] == h[i] by {}
    assert(file.subrange(0, 4) =~= h.subrange(0, 4));
    assert(file.subrange(8, 12) =~= h.subrange(8, 12));
    assert(file.subrange(12, 16) =~= h.subrange(12, 16));
    assert(file.subrange(start - 8, start - 4) =~= h.subrange(start - 8, start - 4));
    assert(data_tag_offset(file) == Some(start - 8));
    assert(u32_at(file, start - 4) == 2 * count);
    let read = Seq::new(count, |i: int| sample_at(file, start + 2 * i));
    assert forall|i: int| 0 <= i < count implies read[i] == samples[i] by {
        assert(file[start + 2 * i] == body[2 * i]);
        assert(file[start + 2 * i + 1] == body[2 * i + 1]);
        assert((2 * i) / 2 == i && (2 * i) % 2 == 0);
        assert((2 * i + 1) / 2 == i && (2 * i + 1) % 2 == 1);
        lemma_le16_reads_back(sample_bits(samples[i]));
    }
    assert(read =~= samples);
    assert((2 * count) / 2 == count);
}

} // verus!
