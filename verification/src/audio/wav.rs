//! The WAV container for mono 16-bit PCM, and the integer part of level
//! metering.
//!
//! A file is a fixed header of 44 bytes followed by the samples, two bytes
//! each, low byte first.

use vstd::prelude::*;

verus! {

/// Length of the header, in bytes.
pub const HEADER_LEN: usize = 44;

/// The two bytes of a 16-bit field, low byte first.
pub open spec fn le_bytes_u16(x: int) -> Seq<u8> {
    seq![(x % 256) as u8, (x / 256 % 256) as u8]
}

/// The four bytes of a 32-bit field, low byte first.
pub open spec fn le_bytes_u32(x: int) -> Seq<u8> {
    seq![
        (x % 256) as u8,
        (x / 256 % 256) as u8,
        (x / 65536 % 256) as u8,
        (x / 16777216 % 256) as u8,
    ]
}

/// The value of four bytes read low byte first.
pub open spec fn u32_of_le_bytes(b: Seq<u8>) -> int {
    b[0] as int + 256 * (b[1] as int) + 65536 * (b[2] as int) + 16777216 * (b[3] as int)
}

/// A sample as an unsigned 16-bit word in two's complement.
pub open spec fn sample_word(s: i16) -> int {
    if s >= 0 {
        s as int
    } else {
        s as int + 65536
    }
}

/// The sample that a two's complement word stands for.
pub open spec fn word_sample(w: int) -> i16 {
    if w < 32768 {
        w as i16
    } else {
        (w - 65536) as i16
    }
}

/// The sample stored in a low and a high byte.
pub open spec fn sample_of_bytes(lo: u8, hi: u8) -> i16 {
    word_sample(lo as int + 256 * (hi as int))
}

/// The samples as bytes: two per sample, low byte first.
pub open spec fn pcm_bytes(samples: Seq<i16>) -> Seq<u8> {
    Seq::new(
        2 * samples.len(),
        |i: int|
            if i % 2 == 0 {
                (sample_word(samples[i / 2]) % 256) as u8
            } else {
                (sample_word(samples[i / 2]) / 256) as u8
            },
    )
}

/// The samples held in a run of bytes; a trailing odd byte is left out.
pub open spec fn pcm_samples(bytes: Seq<u8>) -> Seq<i16> {
    Seq::new(bytes.len() / 2, |k: int| sample_of_bytes(bytes[2 * k], bytes[2 * k + 1]))
}

/// `RIFF` in ASCII.
pub open spec fn tag_riff() -> Seq<u8> {
    seq![0x52u8, 0x49u8, 0x46u8, 0x46u8]
}

/// `WAVE` in ASCII.
pub open spec fn tag_wave() -> Seq<u8> {
    seq![0x57u8, 0x41u8, 0x56u8, 0x45u8]
}

/// `fmt ` in ASCII.
pub open spec fn tag_fmt() -> Seq<u8> {
    seq![0x66u8, 0x6du8, 0x74u8, 0x20u8]
}

/// `data` in ASCII.
pub open spec fn tag_data() -> Seq<u8> {
    seq![0x64u8, 0x61u8, 0x74u8, 0x61u8]
}

/// The header of a file that carries `data_size` bytes of samples at
/// `sample_rate`: the RIFF chunk, a format chunk of 16 bytes (PCM, one
/// channel, the rate, two bytes per second and per block for each sample,
/// 16 bits) and the head of the data chunk.
#[verifier::opaque]
pub open spec fn wav_header(data_size: int, sample_rate: int) -> Seq<u8> {
    tag_riff() + le_bytes_u32(36 + data_size) + tag_wave() + tag_fmt() + le_bytes_u32(16)
        + le_bytes_u16(1) + le_bytes_u16(1) + le_bytes_u32(sample_rate) + le_bytes_u32(
        sample_rate * 2,
    ) + le_bytes_u16(2) + le_bytes_u16(16) + tag_data() + le_bytes_u32(data_size)
}

/// The whole file for `samples` at `sample_rate`.
pub open spec fn wav_bytes(samples: Seq<i16>, sample_rate: int) -> Seq<u8> {
    wav_header(2 * (samples.len() as int), sample_rate) + pcm_bytes(samples)
}

/// Whether the sizes of such a file fit the header's 32-bit fields.
pub open spec fn wav_representable(sample_count: int, sample_rate: int) -> bool {
    &&& 2 * sample_count + 36 <= u32::MAX
    &&& 2 * sample_rate <= u32::MAX
}

/// What a file holds, if it is a well-formed mono 16-bit PCM file: its
/// first 44 bytes are the header for the bytes that follow and for the rate
/// written in it, and the samples' bytes come in pairs.
pub open spec fn wav_contents(bytes: Seq<u8>) -> Option<(Seq<i16>, u32)> {
    if bytes.len() < 44 {
        None
    } else {
        let rate = u32_of_le_bytes(bytes.subrange(24, 28));
        let data = bytes.skip(44);
        if data.len() % 2 == 0 && wav_representable(data.len() as int / 2, rate)
            && bytes.take(44) == wav_header(data.len() as int, rate) {
            Some((pcm_samples(data), rate as u32))
        } else {
            None
        }
    }
}

/// Reading the bytes of a 32-bit value gives the value back.
pub proof fn lemma_u32_le_roundtrip(x: int)
    requires
        0 <= x <= u32::MAX,
    ensures
        le_bytes_u32(x).len() == 4,
        u32_of_le_bytes(le_bytes_u32(x)) == x,
{
}

/// Reading the bytes of samples gives the samples back.
pub proof fn lemma_pcm_roundtrip(samples: Seq<i16>)
    ensures
        pcm_bytes(samples).len() == 2 * samples.len(),
        pcm_samples(pcm_bytes(samples)) == samples,
{
    let bytes = pcm_bytes(samples);
    assert forall|k: int| 0 <= k < samples.len() implies #[trigger] pcm_samples(bytes)[k]
        == samples[k] by {
        let w = sample_word(samples[k]);
        assert(bytes[2 * k] == (w % 256) as u8);
        assert(bytes[2 * k + 1] == (w / 256) as u8);
    }
    assert(pcm_samples(bytes) =~= samples);
}

/// Writing the samples read from an even number of bytes gives the bytes
/// back.
pub proof fn lemma_pcm_bytes_of_samples(bytes: Seq<u8>)
    requires
        bytes.len() % 2 == 0,
    ensures
        pcm_bytes(pcm_samples(bytes)) == bytes,
{
    let samples = pcm_samples(bytes);
    assert forall|i: int| 0 <= i < bytes.len() implies #[trigger] pcm_bytes(samples)[i]
        == bytes[i] by {
        let k = i / 2;
        let lo = bytes[2 * k];
        let hi = bytes[2 * k + 1];
        assert(samples[k] == sample_of_bytes(lo, hi));
        assert(sample_word(samples[k]) == lo as int + 256 * (hi as int));
    }
    assert(pcm_bytes(samples) =~= bytes);
}

/// Parsing an encoded file recovers exactly the samples and the rate.
pub proof fn lemma_wav_roundtrip(samples: Seq<i16>, sample_rate: u32)
    requires
        wav_representable(samples.len() as int, sample_rate as int),
    ensures
        wav_contents(wav_bytes(samples, sample_rate as int)) == Some((samples, sample_rate)),
{
    reveal(wav_header);
    let header = wav_header(2 * (samples.len() as int), sample_rate as int);
    let bytes = wav_bytes(samples, sample_rate as int);
    lemma_pcm_roundtrip(samples);
    assert(header.len() == 44);
    assert(bytes.skip(44) =~= pcm_bytes(samples));
    assert(bytes.take(44) =~= header);
    assert(bytes.subrange(24, 28) =~= le_bytes_u32(sample_rate as int));
    lemma_u32_le_roundtrip(sample_rate as int);
}

/// A well-formed file is the encoding of what it holds.
pub proof fn lemma_wav_contents_encode(bytes: Seq<u8>)
    requires
        wav_contents(bytes) is Some,
    ensures
        wav_contents(bytes) matches Some(c) && wav_bytes(c.0, c.1 as int) == bytes,
{
    let data = bytes.skip(44);
    lemma_pcm_bytes_of_samples(data);
    assert(bytes =~= bytes.take(44) + data);
    assert(pcm_samples(data).len() * 2 == data.len());
}

fn push_u16_le(buf: &mut Vec<u8>, x: u16)
    ensures
        final(buf)@ == old(buf)@ + le_bytes_u16(x as int),
{
    buf.push((x % 256) as u8);
    buf.push((x / 256) as u8);
    assert(buf@ =~= old(buf)@ + le_bytes_u16(x as int));
}

fn push_u32_le(buf: &mut Vec<u8>, x: u32)
    ensures
        final(buf)@ == old(buf)@ + le_bytes_u32(x as int),
{
    buf.push((x % 256) as u8);
    buf.push((x / 256 % 256) as u8);
    buf.push((x / 65536 % 256) as u8);
    buf.push((x / 16777216) as u8);
    assert(buf@ =~= old(buf)@ + le_bytes_u32(x as int));
}

fn push_tag(buf: &mut Vec<u8>, a: u8, b: u8, c: u8, d: u8)
    ensures
        final(buf)@ == old(buf)@ + seq![a, b, c, d],
{
    buf.push(a);
    buf.push(b);
    buf.push(c);
    buf.push(d);
    assert(buf@ =~= old(buf)@ + seq![a, b, c, d]);
}

fn read_u32_le(bytes: &[u8], at: usize) -> (x: u32)
    requires
        at + 4 <= bytes@.len(),
    ensures
        x as int == u32_of_le_bytes(bytes@.subrange(at as int, at + 4)),
{
    let b0: u32 = bytes[at] as u32;
    let b1: u32 = bytes[at + 1] as u32;
    let b2: u32 = bytes[at + 2] as u32;
    let b3: u32 = bytes[at + 3] as u32;
    b0 + 256 * b1 + 65536 * b2 + 16777216 * b3
}

/// Encodes samples as a mono 16-bit WAV file.
pub fn encode_wav(samples: &[i16], sample_rate: u32) -> (bytes: Vec<u8>)
    requires
        wav_representable(samples@.len() as int, sample_rate as int),
    ensures
        bytes@ == wav_bytes(samples@, sample_rate as int),
        bytes@.len() == 44 + 2 * samples@.len(),
        wav_contents(bytes@) == Some((samples@, sample_rate)),
{
    let count: usize = samples.len();
    let data_size: u32 = (count * 2) as u32;
    let mut buf: Vec<u8> = encode_header(data_size, sample_rate);
    assert(buf@ == wav_header(2 * (samples@.len() as int), sample_rate as int));
    let ghost header = buf@;
    let mut i: usize = 0;
    while i < count
        invariant
            count == samples@.len(),
            0 <= i <= count,
            header.len() == 44,
            buf@ == header + pcm_bytes(samples@.take(i as int)),
        decreases count - i,
    {
        let s: i16 = samples[i];
        let word: u16 = if s >= 0 {
            s as u16
        } else {
            (s as i32 + 65536) as u16
        };
        buf.push((word % 256) as u8);
        buf.push((word / 256) as u8);
        proof {
            let before = samples@.take(i as int);
            let after = samples@.take(i + 1);
            assert(after[i as int] == s);
            assert(pcm_bytes(after) =~= pcm_bytes(before) + seq![
                (word % 256) as u8,
                (word / 256) as u8,
            ]);
            assert(buf@ =~= header + pcm_bytes(after));
        }
        i += 1;
    }
    proof {
        assert(samples@.take(count as int) =~= samples@);
        lemma_wav_roundtrip(samples@, sample_rate);
    }
    buf
}

/// Reads samples from raw bytes, two per sample and low byte first. A
/// trailing odd byte is left out.
pub fn pcm_from_le_bytes(bytes: &[u8]) -> (samples: Vec<i16>)
    ensures
        samples@ == pcm_samples(bytes@),
{
    let count: usize = bytes.len() / 2;
    let mut out: Vec<i16> = Vec::with_capacity(count);
    let mut k: usize = 0;
    while k < count
        invariant
            count == bytes@.len() / 2,
            2 * count <= bytes@.len() <= usize::MAX,
            0 <= k <= count,
            out@ == pcm_samples(bytes@).take(k as int),
        decreases count - k,
    {
        let lo: i32 = bytes[2 * k] as i32;
        let hi: i32 = bytes[2 * k + 1] as i32;
        let word: i32 = lo + 256 * hi;
        let s: i16 = if word < 32768 {
            word as i16
        } else {
            (word - 65536) as i16
        };
        out.push(s);
        assert(out@ =~= pcm_samples(bytes@).take(k + 1));
        k += 1;
    }
    assert(out@ =~= pcm_samples(bytes@));
    out
}

/// Parses a mono 16-bit WAV file as `encode_wav` writes it.
///
/// Returns the samples and the rate, or `None` where the bytes are not
/// such a file.
pub fn decode_wav(bytes: &[u8]) -> (contents: Option<(Vec<i16>, u32)>)
    ensures
        contents is Some == wav_contents(bytes@) is Some,
        contents matches Some(c) ==> wav_contents(bytes@) == Some((c.0@, c.1)),
{
    if bytes.len() < HEADER_LEN {
        return None;
    }
    let data_len: usize = bytes.len() - HEADER_LEN;
    let rate: u32 = read_u32_le(bytes, 24);
    if data_len % 2 != 0 || data_len > 0xffff_ffdausize || rate > 0x7fff_ffffu32 {
        return None;
    }
    let expected: Vec<u8> = encode_header(data_len as u32, rate);
    if !has_prefix(bytes, expected.as_slice()) {
        return None;
    }
    let data: &[u8] = vstd::slice::slice_subrange(bytes, HEADER_LEN, bytes.len());
    assert(data@ =~= bytes@.skip(44));
    let samples: Vec<i16> = pcm_from_le_bytes(data);
    Some((samples, rate))
}

fn has_prefix(bytes: &[u8], prefix: &[u8]) -> (b: bool)
    requires
        prefix@.len() <= bytes@.len(),
    ensures
        b == (bytes@.take(prefix@.len() as int) == prefix@),
{
    let n: usize = prefix.len();
    let mut i: usize = 0;
    while i < n
        invariant
            n == prefix@.len(),
            n <= bytes@.len(),
            0 <= i <= n,
            forall|j: int| 0 <= j < i ==> bytes@[j] == prefix@[j],
        decreases n - i,
    {
        if bytes[i] != prefix[i] {
            assert(bytes@.take(n as int)[i as int] != prefix@[i as int]);
            return false;
        }
        i += 1;
    }
    assert(bytes@.take(n as int) =~= prefix@);
    true
}

fn encode_header(data_size: u32, sample_rate: u32) -> (buf: Vec<u8>)
    requires
        data_size + 36 <= u32::MAX,
        2 * sample_rate <= u32::MAX,
    ensures
        buf@ == wav_header(data_size as int, sample_rate as int),
        buf@.len() == 44,
{
    proof {
        reveal(wav_header);
    }
    let mut buf: Vec<u8> = Vec::with_capacity(HEADER_LEN);
    push_tag(&mut buf, 0x52u8, 0x49u8, 0x46u8, 0x46u8);
    push_u32_le(&mut buf, 36 + data_size);
    push_tag(&mut buf, 0x57u8, 0x41u8, 0x56u8, 0x45u8);
    push_tag(&mut buf, 0x66u8, 0x6du8, 0x74u8, 0x20u8);
    push_u32_le(&mut buf, 16);
    push_u16_le(&mut buf, 1);
    push_u16_le(&mut buf, 1);
    push_u32_le(&mut buf, sample_rate);
    push_u32_le(&mut buf, sample_rate * 2);
    push_u16_le(&mut buf, 2);
    push_u16_le(&mut buf, 16);
    push_tag(&mut buf, 0x64u8, 0x61u8, 0x74u8, 0x61u8);
    push_u32_le(&mut buf, data_size);
    buf
}

/// The sum of the squares of the samples.
pub open spec fn square_sum(samples: Seq<i16>) -> int
    decreases samples.len(),
{
    if samples.len() == 0 {
        0
    } else {
        square_sum(samples.drop_last()) + (samples.last() as int) * (samples.last() as int)
    }
}

/// The sum of squares of `n` samples is at most `n` times the square of
/// the largest magnitude.
pub proof fn lemma_square_sum_bound(samples: Seq<i16>)
    ensures
        0 <= square_sum(samples) <= samples.len() * 1073741824,
    decreases samples.len(),
{
    if samples.len() > 0 {
        lemma_square_sum_bound(samples.drop_last());
        let v = samples.last() as int;
        assert(0 <= v * v <= 1073741824) by (nonlinear_arith)
            requires
                -32768 <= v <= 32767,
        ;
    }
}

/// Flipping the sign of every sample leaves the sum of squares, and so
/// the level, as it is.
pub proof fn lemma_square_sum_sign_flip(a: Seq<i16>, b: Seq<i16>)
    requires
        a.len() == b.len(),
        forall|i: int| 0 <= i < a.len() ==> #[trigger] b[i] as int == -(a[i] as int),
    ensures
        square_sum(a) == square_sum(b),
    decreases a.len(),
{
    if a.len() > 0 {
        lemma_square_sum_sign_flip(a.drop_last(), b.drop_last());
        let x = a.last() as int;
        let y = b.last() as int;
        assert(y == -x);
        assert(x * x == y * y) by (nonlinear_arith)
            requires
                y == -x,
        ;
    }
}

/// For samples that all have the value `amplitude` the sum of squares is
/// the square of the amplitude for each sample: the mean square is the
/// square of the amplitude.
pub proof fn lemma_square_sum_constant(samples: Seq<i16>, amplitude: i16)
    requires
        forall|i: int| 0 <= i < samples.len() ==> #[trigger] samples[i] == amplitude,
    ensures
        square_sum(samples) == samples.len() * (amplitude as int * amplitude as int),
    decreases samples.len(),
{
    if samples.len() > 0 {
        lemma_square_sum_constant(samples.drop_last(), amplitude);
        let n = samples.len() as int;
        let q = amplitude as int * amplitude as int;
        assert(n * q == (n - 1) * q + q) by (nonlinear_arith);
    }
}

/// Adds up the squares of the samples: the exact part of the level of a
/// chunk. The level is the root of this sum's mean over the largest
/// sample value.
pub fn sum_of_squares(samples: &[i16]) -> (sum: u128)
    ensures
        sum == square_sum(samples@),
        samples@.len() == 0 ==> sum == 0,
{
    let mut sum: u128 = 0;
    let mut i: usize = 0;
    while i < samples.len()
        invariant
            0 <= i <= samples@.len(),
            sum == square_sum(samples@.take(i as int)),
        decreases samples@.len() - i,
    {
        let v: i128 = samples[i] as i128;
        proof {
            let upto = samples@.take(i + 1);
            assert(upto.drop_last() =~= samples@.take(i as int));
            assert(upto.last() == samples@[i as int]);
            lemma_square_sum_bound(samples@.take(i as int));
            lemma_square_sum_bound(upto);
            assert(0 <= v * v <= 1073741824) by (nonlinear_arith)
                requires
                    -32768 <= v <= 32767,
            ;
        }
        sum = sum + (v * v) as u128;
        i += 1;
    }
    assert(samples@.take(samples@.len() as int) =~= samples@);
    sum
}

} // verus!
