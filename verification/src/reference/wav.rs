//! 16-bit PCM WAV, which is all the encoder takes.

use vstd::prelude::*;

verus! {

/// A WAV file's sampling rate, channel count and interleaved samples.
#[derive(Debug)]
pub struct Wav {
    pub rate: u32,
    pub channels: usize,
    pub samples: Vec<i16>,
}

/// Why a file is not taken as 16-bit PCM WAV.
#[derive(Clone, Copy, Debug, PartialEq, Eq, Structural)]
pub enum WavError {
    /// The file is not a RIFF/WAVE file.
    NotRiffWave,
    /// The file has no format chunk.
    NoFmtChunk,
    /// The file has no data chunk.
    NoDataChunk,
    /// The format is not 16-bit PCM: the format tag and the bits per sample.
    UnsupportedFormat { tag: u16, bits: u16 },
}

/// The format chunk's fields that matter: format tag, channels, sampling rate and
/// bits per sample.
pub type WavFormat = (u16, u16, u32, u16);

/// The little-endian 16 bit value at `i`.
pub open spec fn le16_at(b: Seq<u8>, i: int) -> nat {
    b[i] as nat + 256 * (b[i + 1] as nat)
}

/// The little-endian 32 bit value at `i`.
pub open spec fn le32_at(b: Seq<u8>, i: int) -> nat {
    b[i] as nat + 256 * (b[i + 1] as nat) + 65536 * (b[i + 2] as nat) + 16777216 * (b[i + 3] as nat)
}

/// Whether the four bytes at `i` are `id`.
pub open spec fn tag_at(b: Seq<u8>, i: int, id: Seq<u8>) -> bool {
    b.subrange(i, i + 4) == id
}

pub open spec fn riff_tag() -> Seq<u8> {
    seq![0x52u8, 0x49, 0x46, 0x46]
}

pub open spec fn wave_tag() -> Seq<u8> {
    seq![0x57u8, 0x41, 0x56, 0x45]
}

pub open spec fn fmt_tag() -> Seq<u8> {
    seq![0x66u8, 0x6d, 0x74, 0x20]
}

pub open spec fn data_tag() -> Seq<u8> {
    seq![0x64u8, 0x61, 0x74, 0x61]
}

/// The chunks of `b` from byte `at` on, each an identifier, a length and a body cut
/// at the end of the file, padded to an even length: the last format chunk with a
/// body of at least 16 bytes, and the last data chunk's body as its start and end.
pub open spec fn scan_chunks(
    b: Seq<u8>,
    at: nat,
    format: Option<WavFormat>,
    data: Option<(nat, nat)>,
) -> (Option<WavFormat>, Option<(nat, nat)>)
    decreases b.len() - at,
{
    if at + 8 > b.len() {
        (format, data)
    } else {
        let len = le32_at(b, at + 4 as int);
        let end = if at + 8 + len < b.len() {
            at + 8 + len
        } else {
            b.len() as nat
        };
        let (format2, data2) = if tag_at(b, at as int, fmt_tag()) && end - (at + 8) >= 16 {
            (
                Some(
                    (
                        le16_at(b, at + 8 as int) as u16,
                        le16_at(b, at + 10 as int) as u16,
                        le32_at(b, at + 12 as int) as u32,
                        le16_at(b, at + 22 as int) as u16,
                    ),
                ),
                data,
            )
        } else if tag_at(b, at as int, data_tag()) {
            (format, Some(((at + 8) as nat, end)))
        } else {
            (format, data)
        };
        let next = at + 8 + len + len % 2;
        if next > b.len() {
            (format2, data2)
        } else {
            scan_chunks(b, next, format2, data2)
        }
    }
}

/// A 16 bit sample from its unsigned value.
pub open spec fn i16_of(u: nat) -> i16 {
    if u < 32768 {
        u as i16
    } else {
        (u - 65536) as i16
    }
}

/// The samples of the bytes from `start` to `end`: little-endian pairs, an odd last
/// byte left out.
pub open spec fn samples_of(b: Seq<u8>, start: nat, end: nat) -> Seq<i16> {
    Seq::new(((end - start) / 2) as nat, |i: int| i16_of(le16_at(b, start + 2 * i)))
}

/// What a file holds: the rate, channels and samples, or why it is not 16-bit PCM
/// WAV.
pub open spec fn wav_of(b: Seq<u8>) -> Result<(u32, nat, Seq<i16>), WavError> {
    if b.len() < 12 || !tag_at(b, 0, riff_tag()) || !tag_at(b, 8, wave_tag()) {
        Err(WavError::NotRiffWave)
    } else {
        let (format, data) = scan_chunks(b, 12, None, None);
        match format {
            None => Err(WavError::NoFmtChunk),
            Some((tag, channels, rate, bits)) => match data {
                None => Err(WavError::NoDataChunk),
                Some((start, end)) => if !(tag == 1 || tag == 0xfffe) || bits != 16 {
                    Err(WavError::UnsupportedFormat { tag, bits })
                } else {
                    Ok((rate, channels as nat, samples_of(b, start, end)))
                },
            },
        }
    }
}

/// The little-endian bytes of the 16 bit value `v`.
pub open spec fn le16_bytes(v: nat) -> Seq<u8> {
    seq![(v % 256) as u8, ((v / 256) % 256) as u8]
}

/// The little-endian bytes of the 32 bit value `v`.
pub open spec fn le32_bytes(v: nat) -> Seq<u8> {
    seq![(v % 256) as u8, ((v / 256) % 256) as u8, ((v / 65536) % 256) as u8, ((v / 16777216) % 256) as u8]
}

/// The unsigned value of a 16 bit sample, the inverse of `i16_of`.
pub open spec fn u16_of(s: i16) -> nat {
    if s >= 0 {
        s as nat
    } else {
        (s + 65536) as nat
    }
}

/// The bytes of `samples`, each little-endian.
pub open spec fn sample_bytes(samples: Seq<i16>) -> Seq<u8> {
    Seq::new(
        2 * samples.len(),
        |i: int|
            if i % 2 == 0 {
                (u16_of(samples[i / 2]) % 256) as u8
            } else {
                (u16_of(samples[i / 2]) / 256) as u8
            },
    )
}

/// The header of a 16-bit PCM WAV file of `n` samples at `rate` in `channels`
/// channels: the RIFF header, a format chunk of 16 bytes and the data chunk's header.
pub open spec fn wav_header(rate: u32, channels: u16, n: nat) -> Seq<u8> {
    riff_tag() + le32_bytes(36 + 2 * n) + wave_tag() + fmt_tag() + le32_bytes(16) + le16_bytes(1)
        + le16_bytes(channels as nat) + le32_bytes(rate as nat) + le32_bytes((2 * rate * channels) as nat)
        + le16_bytes(2 * channels as nat) + le16_bytes(16) + data_tag() + le32_bytes(2 * n)
}

/// The 16-bit PCM WAV file of `samples` at `rate` in `channels` channels.
pub open spec fn wav_bytes(rate: u32, channels: u16, samples: Seq<i16>) -> Seq<u8> {
    wav_header(rate, channels, samples.len()) + sample_bytes(samples)
}

/// What the header of a WAV file of `samples` at `rate` in `channels` channels
/// needs to hold: the block size, the byte rate and the length of the file.
pub open spec fn wav_fits(rate: u32, channels: u16, samples: Seq<i16>) -> bool {
    &&& 2 * channels <= u16::MAX
    &&& 2 * rate * channels <= u32::MAX
    &&& 36 + 2 * samples.len() <= u32::MAX
}

/// Appends the two little-endian bytes of `v`.
fn push_le16(out: &mut Vec<u8>, v: u16)
    ensures
        final(out)@ == old(out)@ + le16_bytes(v as nat),
{
    out.push((v % 256) as u8);
    out.push((v / 256) as u8);
    assert(final(out)@ =~= old(out)@ + le16_bytes(v as nat));
}

/// Appends the four little-endian bytes of `v`.
fn push_le32(out: &mut Vec<u8>, v: u32)
    ensures
        final(out)@ == old(out)@ + le32_bytes(v as nat),
{
    out.push((v % 256) as u8);
    out.push(((v / 256) % 256) as u8);
    out.push(((v / 65536) % 256) as u8);
    out.push((v / 16777216) as u8);
    assert(final(out)@ =~= old(out)@ + le32_bytes(v as nat));
}

/// Appends the four bytes of a chunk identifier.
fn push_tag(out: &mut Vec<u8>, t0: u8, t1: u8, t2: u8, t3: u8)
    ensures
        final(out)@ == old(out)@ + seq![t0, t1, t2, t3],
{
    out.push(t0);
    out.push(t1);
    out.push(t2);
    out.push(t3);
    assert(final(out)@ =~= old(out)@ + seq![t0, t1, t2, t3]);
}

/// The bytes of the samples up to `i` and of the one at `i`.
proof fn lemma_sample_bytes_step(samples: Seq<i16>, i: int)
    requires
        0 <= i < samples.len(),
    ensures
        sample_bytes(samples).subrange(0, 2 * i + 2) == sample_bytes(samples).subrange(0, 2 * i)
            + seq![(u16_of(samples[i]) % 256) as u8, (u16_of(samples[i]) / 256) as u8],
{
    let b = sample_bytes(samples);
    assert(b[2 * i] == (u16_of(samples[i]) % 256) as u8);
    assert(b[2 * i + 1] == (u16_of(samples[i]) / 256) as u8);
    assert(b.subrange(0, 2 * i + 2) =~= b.subrange(0, 2 * i) + seq![
        (u16_of(samples[i]) % 256) as u8,
        (u16_of(samples[i]) / 256) as u8,
    ]);
}

/// The 16-bit PCM WAV file of the interleaved `samples` at `sampling_rate` in
/// `channels` channels.
pub fn wav(sampling_rate: u32, channels: u16, samples: &[i16]) -> (out: Vec<u8>)
    requires
        wav_fits(sampling_rate, channels, samples@),
    ensures
        out@ == wav_bytes(sampling_rate, channels, samples@),
{
    let data_len = (samples.len() * 2) as u32;
    let block_align = channels * 2;
    assert(sampling_rate * (block_align as u32) == 2 * sampling_rate * channels) by (nonlinear_arith)
        requires
            block_align == channels * 2,
    ;
    let mut out: Vec<u8> = Vec::new();
    push_tag(&mut out, 0x52, 0x49, 0x46, 0x46);
    push_le32(&mut out, 36 + data_len);
    push_tag(&mut out, 0x57, 0x41, 0x56, 0x45);
    push_tag(&mut out, 0x66, 0x6d, 0x74, 0x20);
    push_le32(&mut out, 16);
    push_le16(&mut out, 1);
    push_le16(&mut out, channels);
    push_le32(&mut out, sampling_rate);
    push_le32(&mut out, sampling_rate * block_align as u32);
    push_le16(&mut out, block_align);
    push_le16(&mut out, 16);
    push_tag(&mut out, 0x64, 0x61, 0x74, 0x61);
    push_le32(&mut out, data_len);
    let ghost header = out@;
    assert(header == wav_header(sampling_rate, channels, samples@.len()));
    assert(header =~= header + sample_bytes(samples@).subrange(0, 0));
    let mut i: usize = 0;
    while i < samples.len()
        invariant
            i <= samples@.len(),
            out@ == header + sample_bytes(samples@).subrange(0, 2 * i),
        decreases samples@.len() - i,
    {
        let sample = samples[i];
        let u: u16 = if sample >= 0 {
            sample as u16
        } else {
            (sample as i32 + 65536) as u16
        };
        proof {
            lemma_sample_bytes_step(samples@, i as int);
        }
        let ghost before = out@;
        out.push((u % 256) as u8);
        out.push((u / 256) as u8);
        proof {
            assert(out@ =~= before + seq![(u % 256) as u8, (u / 256) as u8]);
        }
        i += 1;
    }
    assert(sample_bytes(samples@).subrange(0, 2 * samples@.len() as int) =~= sample_bytes(samples@));
    out
}

/// Reading the little-endian bytes of a 16 bit value gives it back.
proof fn lemma_le16_round_trip(v: nat)
    requires
        v < 0x1_0000,
    ensures
        le16_at(le16_bytes(v), 0) == v,
{
}

/// Reading the little-endian bytes of a 32 bit value gives it back.
proof fn lemma_le32_round_trip(v: nat)
    requires
        v < 0x1_0000_0000,
    ensures
        le32_at(le32_bytes(v), 0) == v,
{
    assert(v % 256 + 256 * ((v / 256) % 256) + 65536 * ((v / 65536) % 256) + 16777216 * ((v
        / 16777216) % 256) == v) by (nonlinear_arith)
        requires
            v < 0x1_0000_0000,
    ;
}

/// Where the fields of a WAV header stand and what they hold.
proof fn lemma_wav_header_fields(rate: u32, channels: u16, n: nat)
    requires
        36 + 2 * n <= u32::MAX,
        2 * rate * channels <= u32::MAX,
    ensures
        ({
            let h = wav_header(rate, channels, n);
            &&& h.len() == 44
            &&& tag_at(h, 0, riff_tag())
            &&& tag_at(h, 8, wave_tag())
            &&& tag_at(h, 12, fmt_tag())
            &&& !tag_at(h, 36, fmt_tag())
            &&& tag_at(h, 36, data_tag())
            &&& le32_at(h, 16) == 16
            &&& le16_at(h, 20) == 1
            &&& le16_at(h, 22) == channels
            &&& le32_at(h, 24) == rate
            &&& le16_at(h, 34) == 16
            &&& le32_at(h, 40) == 2 * n
        }),
{
    let h = wav_header(rate, channels, n);
    assert(h.subrange(0, 4) =~= riff_tag());
    assert(h.subrange(8, 12) =~= wave_tag());
    assert(h.subrange(12, 16) =~= fmt_tag());
    assert(h.subrange(36, 40) =~= data_tag());
    assert(data_tag()[0] != fmt_tag()[0]);
    lemma_le32_round_trip(16);
    lemma_le16_round_trip(1);
    lemma_le16_round_trip(channels as nat);
    lemma_le32_round_trip(rate as nat);
    lemma_le16_round_trip(16);
    lemma_le32_round_trip(2 * n);
    assert(h.subrange(16, 20) =~= le32_bytes(16));
    assert(h.subrange(20, 22) =~= le16_bytes(1));
    assert(h.subrange(22, 24) =~= le16_bytes(channels as nat));
    assert(h.subrange(24, 28) =~= le32_bytes(rate as nat));
    assert(h.subrange(34, 36) =~= le16_bytes(16));
    assert(h.subrange(40, 44) =~= le32_bytes(2 * n));
    assert(le32_at(h, 16) == le32_at(h.subrange(16, 20), 0));
    assert(le16_at(h, 20) == le16_at(h.subrange(20, 22), 0));
    assert(le16_at(h, 22) == le16_at(h.subrange(22, 24), 0));
    assert(le32_at(h, 24) == le32_at(h.subrange(24, 28), 0));
    assert(le16_at(h, 34) == le16_at(h.subrange(34, 36), 0));
    assert(le32_at(h, 40) == le32_at(h.subrange(40, 44), 0));
}

/// The chunks of a file with a 16-bit PCM format chunk at byte 12 and a data chunk
/// of `2 * n` bytes at byte 36 that ends the file.
proof fn lemma_scan_wav(b: Seq<u8>, rate: u32, channels: u16, n: nat)
    requires
        b.len() == 44 + 2 * n,
        tag_at(b, 12, fmt_tag()),
        !tag_at(b, 36, fmt_tag()),
        tag_at(b, 36, data_tag()),
        le32_at(b, 16) == 16,
        le16_at(b, 20) == 1,
        le16_at(b, 22) == channels,
        le32_at(b, 24) == rate,
        le16_at(b, 34) == 16,
        le32_at(b, 40) == 2 * n,
    ensures
        scan_chunks(b, 12, None, None) == (
            Some((1u16, channels, rate, 16u16)),
            Some((44nat, (44 + 2 * n) as nat)),
        ),
{
    let format = Some((1u16, channels, rate, 16u16));
    let data = Some((44nat, (44 + 2 * n) as nat));
    assert(scan_chunks(b, (44 + 2 * n) as nat, format, data) == (format, data));
    assert(scan_chunks(b, 36, format, None) == (format, data));
}

/// The samples of the bytes of samples are those samples.
proof fn lemma_samples_of_bytes(b: Seq<u8>, samples: Seq<i16>)
    requires
        b.len() == 44 + 2 * samples.len(),
        forall|k: int| 0 <= k < 2 * samples.len() ==> #[trigger] b[44 + k] == sample_bytes(samples)[k],
    ensures
        samples_of(b, 44, (44 + 2 * samples.len()) as nat) == samples,
{
    let n = samples.len();
    let sb = sample_bytes(samples);
    assert forall|i: int| 0 <= i < n implies #[trigger] samples_of(b, 44, (44 + 2 * n) as nat)[i]
        == samples[i] by {
        assert(b[44 + 2 * i] == sb[2 * i]);
        assert(b[44 + (2 * i + 1)] == sb[2 * i + 1]);
    }
    assert(samples_of(b, 44, (44 + 2 * n) as nat) =~= samples);
}

/// A WAV file written is read back: its rate, its channel count and its samples.
pub proof fn lemma_wav_round_trip(rate: u32, channels: u16, samples: Seq<i16>)
    requires
        wav_fits(rate, channels, samples),
    ensures
        wav_of(wav_bytes(rate, channels, samples)) == Ok::<(u32, nat, Seq<i16>), WavError>(
            (rate, channels as nat, samples),
        ),
{
    let n = samples.len();
    let h = wav_header(rate, channels, n);
    let b = wav_bytes(rate, channels, samples);
    lemma_wav_header_fields(rate, channels, n);
    assert(b.len() == 44 + 2 * n);
    assert(forall|k: int| 0 <= k < 44 ==> #[trigger] b[k] == h[k]);
    assert(forall|k: int| 0 <= k < 2 * n ==> #[trigger] b[44 + k] == sample_bytes(samples)[k]);
    assert(b.subrange(0, 4) =~= h.subrange(0, 4));
    assert(b.subrange(8, 12) =~= h.subrange(8, 12));
    assert(b.subrange(12, 16) =~= h.subrange(12, 16));
    assert(b.subrange(36, 40) =~= h.subrange(36, 40));
    lemma_scan_wav(b, rate, channels, n);
    lemma_samples_of_bytes(b, samples);
}

/// The little-endian 16 bit value at `i`.
fn le16(b: &[u8], i: usize) -> (v: u16)
    requires
        i + 2 <= b@.len(),
    ensures
        v == le16_at(b@, i as int),
{
    b[i] as u16 + 256 * b[i + 1] as u16
}

/// The little-endian 32 bit value at `i`.
fn le32(b: &[u8], i: usize) -> (v: u32)
    requires
        i + 4 <= b@.len(),
    ensures
        v == le32_at(b@, i as int),
{
    b[i] as u32 + 256 * b[i + 1] as u32 + 65536 * b[i + 2] as u32 + 16777216 * b[i + 3] as u32
}

/// Whether the four bytes at `i` are `t0` to `t3`.
fn tag_is(b: &[u8], i: usize, t0: u8, t1: u8, t2: u8, t3: u8) -> (r: bool)
    requires
        i + 4 <= b@.len(),
    ensures
        r == tag_at(b@, i as int, seq![t0, t1, t2, t3]),
{
    let r = b[i] == t0 && b[i + 1] == t1 && b[i + 2] == t2 && b[i + 3] == t3;
    assert(r == (b@.subrange(i as int, i + 4) =~= seq![t0, t1, t2, t3]));
    r
}

/// Reads a 16-bit PCM WAV file from its bytes.
pub fn parse(bytes: &[u8]) -> (r: Result<Wav, WavError>)
    ensures
        match (r, wav_of(bytes@)) {
            (Ok(w), Ok((rate, channels, samples))) => w.rate == rate && w.channels == channels
                && w.samples@ == samples,
            (Err(e), Err(f)) => e == f,
            _ => false,
        },
{
    let n = bytes.len();
    if n < 12 || !tag_is(bytes, 0, 0x52, 0x49, 0x46, 0x46) || !tag_is(
        bytes,
        8,
        0x57,
        0x41,
        0x56,
        0x45,
    ) {
        return Err(WavError::NotRiffWave);
    }
    let mut format: Option<(u16, u16, u32, u16)> = None;
    let mut data: Option<(usize, usize)> = None;
    let mut at: u128 = 12;
    let ghost target = scan_chunks(bytes@, 12, None, None);
    while at + 8 <= n as u128
        invariant
            n == bytes@.len(),
            at >= 12,
            at <= n + 0x1_0000_0000,
            n <= usize::MAX,
            data matches Some((s, e)) ==> s <= e <= n,
            target == scan_chunks(
                bytes@,
                at as nat,
                format,
                match data {
                    Some((s, e)) => Some((s as nat, e as nat)),
                    None => None,
                },
            ),
        decreases (if at <= n {
            n - at
        } else {
            0
        }),
    {
        let a = at as usize;
        let len = le32(bytes, a + 4);
        let end64 = at + 8 + len as u128;
        let end: usize = if end64 < n as u128 {
            end64 as usize
        } else {
            n
        };
        if tag_is(bytes, a, 0x66, 0x6d, 0x74, 0x20) && end - (a + 8) >= 16 {
            format = Some((le16(bytes, a + 8), le16(bytes, a + 10), le32(bytes, a + 12), le16(bytes, a + 22)));
        } else if tag_is(bytes, a, 0x64, 0x61, 0x74, 0x61) {
            data = Some((a + 8, end));
        }
        at = at + 8 + len as u128 + (len % 2) as u128;
    }
    let (tag, channels, rate, bits) = match format {
        Some(f) => f,
        None => return Err(WavError::NoFmtChunk),
    };
    let (start, end) = match data {
        Some(d) => d,
        None => return Err(WavError::NoDataChunk),
    };
    // 0xfffe is WAVE_FORMAT_EXTENSIBLE, which ffmpeg writes for PCM it could have called 1.
    if !(tag == 1 || tag == 0xfffe) || bits != 16 {
        return Err(WavError::UnsupportedFormat { tag, bits });
    }
    let count = (end - start) / 2;
    let mut samples: Vec<i16> = Vec::with_capacity(count);
    let mut i: usize = 0;
    while i < count
        invariant
            start <= end <= n == bytes@.len(),
            count == (end - start) / 2,
            i <= count,
            samples@ =~= samples_of(bytes@, start as nat, end as nat).subrange(0, i as int),
        decreases count - i,
    {
        let u = le16(bytes, start + 2 * i);
        let sample: i16 = if u < 32768 {
            u as i16
        } else {
            (u as i32 - 65536) as i16
        };
        samples.push(sample);
        i += 1;
    }
    assert(samples_of(bytes@, start as nat, end as nat).subrange(0, count as int) =~= samples_of(
        bytes@,
        start as nat,
        end as nat,
    ));
    Ok(Wav { rate, channels: channels as usize, samples })
}

} // verus!
