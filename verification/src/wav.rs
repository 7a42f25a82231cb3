//! The output container: canonical 44-byte WAV header and 16-bit
//! little-endian integer PCM sample data, specified byte by byte.

use vstd::prelude::*;
use vstd::arithmetic::div_mod::{
    lemma_div_denominator, lemma_fundamental_div_mod, lemma_small_mod,
};

verus! {

/// The sample-data byte budget of the container: the RIFF size fields
/// are 32 bits wide, and the header and tags take 36 of those bytes.
pub const MAX_DATA_BYTES: u64 = 4_294_967_259;

/// Two's-complement code of a 16-bit sample.
pub open spec fn sample_code(s: int) -> nat
    recommends
        -32768 <= s < 32768,
{
    if s < 0 {
        (s + 65536) as nat
    } else {
        s as nat
    }
}

/// The two little-endian bytes of one 16-bit sample.
pub open spec fn sample_le(s: int) -> Seq<u8> {
    seq![(sample_code(s) % 256) as u8, ((sample_code(s) / 256) % 256) as u8]
}

/// The sample data: each sample in order, two bytes each.
pub open spec fn data_bytes(samples: Seq<i16>) -> Seq<u8>
    decreases samples.len(),
{
    if samples.len() == 0 {
        Seq::empty()
    } else {
        data_bytes(samples.drop_last()) + sample_le(samples.last() as int)
    }
}

pub proof fn lemma_data_bytes_len(samples: Seq<i16>)
    ensures
        data_bytes(samples).len() == 2 * samples.len(),
    decreases samples.len(),
{
    if samples.len() > 0 {
        lemma_data_bytes_len(samples.drop_last());
    }
}

/// The canonical 44-byte header of a 16-bit integer PCM WAV file that
/// carries `num_samples` samples.
pub open spec fn wav_header(channels: nat, rate: nat, num_samples: nat) -> Seq<u8> {
    let data_len = 2 * num_samples;
    let riff_len = 36 + data_len;
    let byte_rate = rate * channels * 2;
    let block_align = channels * 2;
    seq![
        0x52u8,
        0x49u8,
        0x46u8,
        0x46u8,  // "RIFF"
        (riff_len % 256) as u8,
        ((riff_len / 256) % 256) as u8,
        ((riff_len / 65536) % 256) as u8,
        ((riff_len / 16777216) % 256) as u8,
        0x57u8,
        0x41u8,
        0x56u8,
        0x45u8,  // "WAVE"
        0x66u8,
        0x6du8,
        0x74u8,
        0x20u8,  // "fmt "
        16u8,
        0u8,
        0u8,
        0u8,  // fmt chunk length
        1u8,
        0u8,  // integer PCM
        (channels % 256) as u8,
        ((channels / 256) % 256) as u8,
        (rate % 256) as u8,
        ((rate / 256) % 256) as u8,
        ((rate / 65536) % 256) as u8,
        ((rate / 16777216) % 256) as u8,
        (byte_rate % 256) as u8,
        ((byte_rate / 256) % 256) as u8,
        ((byte_rate / 65536) % 256) as u8,
        ((byte_rate / 16777216) % 256) as u8,
        (block_align % 256) as u8,
        ((block_align / 256) % 256) as u8,
        16u8,
        0u8,  // bits per sample
        0x64u8,
        0x61u8,
        0x74u8,
        0x61u8,  // "data"
        (data_len % 256) as u8,
        ((data_len / 256) % 256) as u8,
        ((data_len / 65536) % 256) as u8,
        ((data_len / 16777216) % 256) as u8,
    ]
}

/// A whole WAV file: header, then sample data.
pub open spec fn wav_file(channels: nat, rate: nat, samples: Seq<i16>) -> Seq<u8> {
    wav_header(channels, rate, samples.len()) + data_bytes(samples)
}

/// The 16-bit little-endian value at offset `off`.
pub open spec fn le16_at(b: Seq<u8>, off: int) -> nat
    recommends
        0 <= off,
        off + 2 <= b.len(),
{
    (b[off] as nat) + 256 * (b[off + 1] as nat)
}

/// The 32-bit little-endian value at offset `off`.
pub open spec fn le32_at(b: Seq<u8>, off: int) -> nat
    recommends
        0 <= off,
        off + 4 <= b.len(),
{
    (b[off] as nat) + 256 * (b[off + 1] as nat) + 65536 * (b[off + 2] as nat) + 16777216 * (b[
        off + 3
    ] as nat)
}

/// Structural validity of a 16-bit integer PCM WAV file: the tags are in
/// place, the size fields agree with the file length, and the derived
/// rate and alignment fields agree with the channel count and sample
/// rate.
pub open spec fn valid_wav(b: Seq<u8>) -> bool {
    &&& b.len() >= 44
    &&& b[0] == 0x52 && b[1] == 0x49 && b[2] == 0x46 && b[3] == 0x46
    &&& le32_at(b, 4) + 8 == b.len()
    &&& b[8] == 0x57 && b[9] == 0x41 && b[10] == 0x56 && b[11] == 0x45
    &&& b[12] == 0x66 && b[13] == 0x6d && b[14] == 0x74 && b[15] == 0x20
    &&& le32_at(b, 16) == 16
    &&& le16_at(b, 20) == 1
    &&& 1 <= le16_at(b, 22)
    &&& le32_at(b, 28) == le32_at(b, 24) * le16_at(b, 22) * 2
    &&& le16_at(b, 32) == le16_at(b, 22) * 2
    &&& le16_at(b, 34) == 16
    &&& b[36] == 0x64 && b[37] == 0x61 && b[38] == 0x74 && b[39] == 0x61
    &&& le32_at(b, 40) == b.len() - 44
    &&& le32_at(b, 40) % 2 == 0
}

/// The number of samples a valid WAV file carries, read from its data
/// size field.
pub open spec fn wav_sample_count(b: Seq<u8>) -> nat {
    le32_at(b, 40) / 2
}

/// The sample a pair of little-endian bytes stands for.
pub open spec fn decode_sample(lo: u8, hi: u8) -> int {
    let v = (lo as nat) + 256 * (hi as nat);
    if v >= 32768 {
        v - 65536
    } else {
        v as int
    }
}

/// The samples a run of PCM data bytes stands for, two bytes each.
pub open spec fn decode_data(b: Seq<u8>) -> Seq<i16>
    decreases b.len(),
{
    if b.len() < 2 {
        Seq::empty()
    } else {
        decode_data(b.subrange(0, b.len() - 2)) + seq![
            decode_sample(b[b.len() - 2], b[b.len() - 1]) as i16
        ]
    }
}

proof fn lemma_le16_round(x: nat)
    requires
        x < 65536,
    ensures
        (x % 256) + 256 * ((x / 256) % 256) == x,
{
    lemma_fundamental_div_mod(x as int, 256);
    assert(x / 256 < 256) by {
        if x / 256 >= 256 {
            assert(256 * (x / 256) >= 256 * 256);
        }
    }
    lemma_small_mod(x / 256, 256);
}

proof fn lemma_le32_round(x: nat)
    requires
        x < 4294967296,
    ensures
        (x % 256) + 256 * ((x / 256) % 256) + 65536 * ((x / 65536) % 256) + 16777216 * ((x
            / 16777216) % 256) == x,
{
    lemma_fundamental_div_mod(x as int, 256);
    lemma_fundamental_div_mod(x as int / 256, 256);
    lemma_div_denominator(x as int, 256, 256);
    lemma_fundamental_div_mod(x as int / 65536, 256);
    lemma_div_denominator(x as int, 65536, 256);
    assert(x / 16777216 < 256) by {
        if x / 16777216 >= 256 {
            lemma_fundamental_div_mod(x as int, 16777216);
            assert(16777216 * (x / 16777216) >= 16777216 * 256);
        }
    }
    lemma_small_mod(x / 16777216, 256);
}

/// The header's fields, read back as the little-endian values they were
/// built from.
#[verifier::rlimit(100)]
proof fn lemma_wav_header_fields(channels: nat, rate: nat, num_samples: nat)
    requires
        1 <= channels,
        2 * channels < 65536,
        rate < 4294967296,
        rate * channels * 2 < 4294967296,
        2 * num_samples <= MAX_DATA_BYTES,
    ensures
        ({
            let h = wav_header(channels, rate, num_samples);
            &&& h.len() == 44
            &&& h[0] == 0x52 && h[1] == 0x49 && h[2] == 0x46 && h[3] == 0x46
            &&& le32_at(h, 4) == 36 + 2 * num_samples
            &&& h[8] == 0x57 && h[9] == 0x41 && h[10] == 0x56 && h[11] == 0x45
            &&& h[12] == 0x66 && h[13] == 0x6d && h[14] == 0x74 && h[15] == 0x20
            &&& le32_at(h, 16) == 16
            &&& le16_at(h, 20) == 1
            &&& le16_at(h, 22) == channels
            &&& le32_at(h, 24) == rate
            &&& le32_at(h, 28) == rate * channels * 2
            &&& le16_at(h, 32) == channels * 2
            &&& le16_at(h, 34) == 16
            &&& h[36] == 0x64 && h[37] == 0x61 && h[38] == 0x74 && h[39] == 0x61
            &&& le32_at(h, 40) == 2 * num_samples
        }),
{
    let h = wav_header(channels, rate, num_samples);
    let data_len = 2 * num_samples;
    let riff_len = 36 + data_len;
    let byte_rate = rate * channels * 2;
    let block_align = channels * 2;
    lemma_le32_round(riff_len);
    lemma_le32_round(data_len);
    lemma_le32_round(rate);
    lemma_le32_round(byte_rate);
    lemma_le16_round(channels);
    lemma_le16_round(block_align);
    assert(le32_at(h, 4) == riff_len);
    assert(le32_at(h, 16) == 16);
    assert(le16_at(h, 20) == 1);
    assert(le16_at(h, 22) == channels);
    assert(le32_at(h, 24) == rate);
    assert(le32_at(h, 28) == byte_rate);
    assert(le16_at(h, 32) == block_align);
    assert(le16_at(h, 34) == 16);
    assert(le32_at(h, 40) == data_len);
}

/// A freshly written file is structurally valid, and its data size field
/// counts exactly the samples it was given.
#[verifier::rlimit(100)]
pub proof fn lemma_wav_file_valid(channels: nat, rate: nat, samples: Seq<i16>)
    requires
        1 <= channels,
        2 * channels < 65536,
        rate < 4294967296,
        rate * channels * 2 < 4294967296,
        2 * samples.len() <= MAX_DATA_BYTES,
    ensures
        valid_wav(wav_file(channels, rate, samples)),
        wav_sample_count(wav_file(channels, rate, samples)) == samples.len(),
        wav_file(channels, rate, samples).len() == 44 + 2 * samples.len(),
{
    let b = wav_file(channels, rate, samples);
    let h = wav_header(channels, rate, samples.len());
    lemma_wav_header_fields(channels, rate, samples.len());
    lemma_data_bytes_len(samples);
    assert(b.len() == 44 + 2 * samples.len());
    assert(forall|i: int| 0 <= i < 44 ==> b[i] == h[i]);
    assert(le32_at(b, 4) == le32_at(h, 4));
    assert(le32_at(b, 16) == le32_at(h, 16));
    assert(le16_at(b, 20) == le16_at(h, 20));
    assert(le16_at(b, 22) == le16_at(h, 22));
    assert(le32_at(b, 24) == le32_at(h, 24));
    assert(le32_at(b, 28) == le32_at(h, 28));
    assert(le16_at(b, 32) == le16_at(h, 32));
    assert(le16_at(b, 34) == le16_at(h, 34));
    assert(le32_at(b, 40) == le32_at(h, 40));
    lemma_fundamental_div_mod(2 * samples.len() as int, 2);
}

/// Encoding loses nothing: the data bytes decode back to exactly the
/// samples they were built from.
pub proof fn lemma_decode_round_trip(samples: Seq<i16>)
    ensures
        decode_data(data_bytes(samples)) == samples,
    decreases samples.len(),
{
    if samples.len() > 0 {
        let rest = samples.drop_last();
        let s = samples.last() as int;
        lemma_decode_round_trip(rest);
        lemma_data_bytes_len(samples);
        lemma_data_bytes_len(rest);
        let b = data_bytes(samples);
        assert(b.subrange(0, b.len() - 2) =~= data_bytes(rest));
        let code = sample_code(s);
        lemma_le16_round(code);
        assert(b[b.len() - 2] == (code % 256) as u8);
        assert(b[b.len() - 1] == ((code / 256) % 256) as u8);
        assert(decode_sample(b[b.len() - 2], b[b.len() - 1]) == s);
        assert(decode_data(data_bytes(samples)) =~= samples);
    } else {
        assert(decode_data(data_bytes(samples)) =~= samples);
    }
}

/// The data bytes of a whole file are the bytes after the 44-byte
/// header, and they decode back to the samples the file was built from.
pub proof fn lemma_wav_file_samples_recoverable(channels: nat, rate: nat, samples: Seq<i16>)
    ensures
        decode_data(
            wav_file(channels, rate, samples).subrange(
                44,
                wav_file(channels, rate, samples).len() as int,
            ),
        ) == samples,
{
    let b = wav_file(channels, rate, samples);
    lemma_data_bytes_len(samples);
    assert(b.subrange(44, b.len() as int) =~= data_bytes(samples));
    lemma_decode_round_trip(samples);
}

/// Appends the two little-endian bytes of a 16-bit value.
fn push_le16(v: &mut Vec<u8>, x: u16)
    ensures
        final(v)@ == old(v)@ + seq![(x as nat % 256) as u8, ((x as nat / 256) % 256) as u8],
{
    v.push((x % 256) as u8);
    v.push((x / 256) as u8);
    proof {
        assert(x as nat / 256 < 256);
        lemma_small_mod(x as nat / 256, 256);
        assert(final(v)@ =~= old(v)@ + seq![
            (x as nat % 256) as u8,
            ((x as nat / 256) % 256) as u8,
        ]);
    }
}

/// Appends the four little-endian bytes of a 32-bit value.
fn push_le32(v: &mut Vec<u8>, x: u32)
    ensures
        final(v)@ == old(v)@ + seq![
            (x as nat % 256) as u8,
            ((x as nat / 256) % 256) as u8,
            ((x as nat / 65536) % 256) as u8,
            ((x as nat / 16777216) % 256) as u8,
        ],
{
    v.push((x % 256) as u8);
    v.push(((x / 256) % 256) as u8);
    v.push(((x / 65536) % 256) as u8);
    v.push((x / 16777216) as u8);
    proof {
        assert(x as nat / 16777216 < 256);
        lemma_small_mod(x as nat / 16777216, 256);
        assert(final(v)@ =~= old(v)@ + seq![
            (x as nat % 256) as u8,
            ((x as nat / 256) % 256) as u8,
            ((x as nat / 65536) % 256) as u8,
            ((x as nat / 16777216) % 256) as u8,
        ]);
    }
}

/// Appends the two little-endian bytes of one sample, two's complement.
fn push_sample(v: &mut Vec<u8>, s: i16)
    ensures
        final(v)@ == old(v)@ + sample_le(s as int),
{
    let code: u16 = if s >= 0 {
        s as u16
    } else {
        ((s as i32) + 65536) as u16
    };
    proof {
        assert(code as nat == sample_code(s as int));
    }
    push_le16(v, code);
    proof {
        assert(final(v)@ =~= old(v)@ + sample_le(s as int));
    }
}

/// Encodes a batch of samples as little-endian PCM data.
pub fn encode_samples(samples: &Vec<i16>) -> (r: Vec<u8>)
    ensures
        r@ == data_bytes(samples@),
{
    let n = samples.len();
    let mut v: Vec<u8> = Vec::new();
    let mut i: usize = 0;
    while i < n
        invariant
            0 <= i <= n,
            n == samples@.len(),
            v@ == data_bytes(samples@.take(i as int)),
        decreases n - i,
    {
        push_sample(&mut v, samples[i]);
        proof {
            let pre = samples@.take(i as int);
            let post = samples@.take(i + 1);
            assert(post.drop_last() =~= pre);
            assert(post.last() == samples@[i as int]);
        }
        i += 1;
    }
    proof {
        assert(samples@.take(n as int) =~= samples@);
    }
    v
}

/// Builds the header for a recording of `num_samples` samples.
pub fn wav_header_bytes(channels: u16, sample_rate: u32, num_samples: u64) -> (r: Vec<u8>)
    requires
        1 <= channels,
        2 * channels < 65536,
        (sample_rate as nat) * (channels as nat) * 2 < 4294967296,
        2 * num_samples <= MAX_DATA_BYTES,
    ensures
        r@ == wav_header(channels as nat, sample_rate as nat, num_samples as nat),
{
    let data_len64: u64 = 2 * num_samples;
    let data_len: u32 = data_len64 as u32;
    let riff_len: u32 = 36 + data_len;
    proof {
        assert((sample_rate as nat) * (channels as nat) <= (sample_rate as nat) * (channels as nat)
            * 2);
    }
    let byte_rate: u32 = sample_rate * (channels as u32) * 2;
    let block_align: u16 = 2 * channels;
    let mut v: Vec<u8> = Vec::new();
    v.push(0x52);
    v.push(0x49);
    v.push(0x46);
    v.push(0x46);
    push_le32(&mut v, riff_len);
    v.push(0x57);
    v.push(0x41);
    v.push(0x56);
    v.push(0x45);
    v.push(0x66);
    v.push(0x6d);
    v.push(0x74);
    v.push(0x20);
    push_le32(&mut v, 16);
    push_le16(&mut v, 1);
    push_le16(&mut v, channels);
    push_le32(&mut v, sample_rate);
    push_le32(&mut v, byte_rate);
    push_le16(&mut v, block_align);
    push_le16(&mut v, 16);
    v.push(0x64);
    v.push(0x61);
    v.push(0x74);
    v.push(0x61);
    push_le32(&mut v, data_len);
    proof {
        assert(v@ =~= wav_header(channels as nat, sample_rate as nat, num_samples as nat));
    }
    v
}

/// Builds a whole WAV file for the given samples.
pub fn wav_file_bytes(channels: u16, sample_rate: u32, samples: &Vec<i16>) -> (r: Vec<u8>)
    requires
        1 <= channels,
        2 * channels < 65536,
        (sample_rate as nat) * (channels as nat) * 2 < 4294967296,
        2 * samples@.len() <= MAX_DATA_BYTES,
    ensures
        r@ == wav_file(channels as nat, sample_rate as nat, samples@),
{
    let n = samples.len();
    let mut v = wav_header_bytes(channels, sample_rate, n as u64);
    let mut data = encode_samples(samples);
    v.append(&mut data);
    v
}

} // verus!
