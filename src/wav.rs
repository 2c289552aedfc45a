//! Framing of mono PCM16 audio as a RIFF/WAVE file.
use vstd::prelude::*;

verus! {

/// The sample rate handed to transcription, in Hz.
pub const TARGET_SAMPLE_RATE: u32 = 16000;

/// The most samples that one file can hold: the RIFF size field is 32 bits
/// wide and counts 36 header bytes besides the data.
pub const MAX_WAV_SAMPLES: usize = 2147483629;

/// `v` as two little-endian bytes.
pub open spec fn le16(v: nat) -> Seq<u8> {
    seq![(v % 256) as u8, ((v / 256) % 256) as u8]
}

/// `v` as four little-endian bytes.
pub open spec fn le32(v: nat) -> Seq<u8> {
    seq![
        (v % 256) as u8,
        ((v / 256) % 256) as u8,
        ((v / 65536) % 256) as u8,
        ((v / 16777216) % 256) as u8,
    ]
}

/// The two's-complement code of a sample.
pub open spec fn pcm_code(x: i16) -> nat {
    if x < 0 {
        (x + 65536) as nat
    } else {
        x as nat
    }
}

/// The samples as consecutive little-endian 16-bit codes.
pub open spec fn pcm_bytes(s: Seq<i16>) -> Seq<u8>
    decreases s.len(),
{
    if s.len() == 0 {
        Seq::empty()
    } else {
        pcm_bytes(s.drop_last()) + le16(pcm_code(s.last()))
    }
}

/// The 44-byte header of a mono 16-bit integer PCM file at `rate` whose
/// data chunk holds `data_len` bytes.
pub open spec fn wav_header(rate: nat, data_len: nat) -> Seq<u8> {
    seq![82u8, 73, 70, 70] + le32(36 + data_len) + seq![87u8, 65, 86, 69] + seq![102u8, 109, 116, 32]
        + le32(16) + le16(1) + le16(1) + le32(rate) + le32(rate * 2) + le16(2) + le16(16)
        + seq![100u8, 97, 116, 97] + le32(data_len)
}

/// The whole file for `s` at `rate`.
pub open spec fn wav_file(rate: nat, s: Seq<i16>) -> Seq<u8> {
    wav_header(rate, 2 * s.len()) + pcm_bytes(s)
}

/// The little-endian 16-bit value at `at`.
pub open spec fn read_le16(b: Seq<u8>, at: int) -> nat {
    b[at] as nat + 256 * (b[at + 1] as nat)
}

/// The little-endian 32-bit value at `at`.
pub open spec fn read_le32(b: Seq<u8>, at: int) -> nat {
    b[at] as nat + 256 * (b[at + 1] as nat) + 65536 * (b[at + 2] as nat) + 16777216 * (
    b[at + 3] as nat)
}

/// `b` starts with a RIFF/WAVE header with a `fmt ` chunk of PCM and a
/// `data` chunk that runs to the end, the sizes agreeing with its length.
pub open spec fn is_riff_wave(b: Seq<u8>) -> bool {
    &&& b.len() >= 44
    &&& b.subrange(0, 4) == seq![82u8, 73, 70, 70]
    &&& read_le32(b, 4) + 8 == b.len()
    &&& b.subrange(8, 12) == seq![87u8, 65, 86, 69]
    &&& b.subrange(12, 16) == seq![102u8, 109, 116, 32]
    &&& read_le16(b, 20) == 1
    &&& b.subrange(36, 40) == seq![100u8, 97, 116, 97]
    &&& read_le32(b, 40) + 44 == b.len()
}

/// The channel count that the header declares.
pub open spec fn wav_channels(b: Seq<u8>) -> nat {
    read_le16(b, 22)
}

/// The sample rate that the header declares.
pub open spec fn wav_rate(b: Seq<u8>) -> nat {
    read_le32(b, 24)
}

/// The bits per sample that the header declares.
pub open spec fn wav_bits(b: Seq<u8>) -> nat {
    read_le16(b, 34)
}

/// The number of frames in the data chunk.
pub open spec fn wav_frame_count(b: Seq<u8>) -> nat {
    let frame_bytes = wav_channels(b) * (wav_bits(b) / 8);
    if frame_bytes == 0 {
        0
    } else {
        read_le32(b, 40) / frame_bytes
    }
}

/// Sample `k` of the data chunk, read back as a signed 16-bit value.
pub open spec fn wav_sample(b: Seq<u8>, k: int) -> int {
    let v = read_le16(b, 44 + 2 * k);
    if v >= 32768 {
        v - 65536
    } else {
        v as int
    }
}

/// Relies on hound's `WavWriter::new`, `write_sample` and `finalize`, for a
/// mono 16-bit integer spec, writing into memory: the 44-byte header with a
/// PCMWAVEFORMAT `fmt ` chunk, then each sample as two little-endian bytes,
/// the two size fields filled in by `finalize`.
#[verifier::external_body]
fn encode_pcm16_mono(samples: &[i16], rate: u32) -> (r: Vec<u8>)
    requires
        samples@.len() <= MAX_WAV_SAMPLES,
        0 < rate <= u32::MAX / 2,
    ensures
        r@ == wav_file(rate as nat, samples@),
{
    let spec = hound::WavSpec {
        channels: 1,
        sample_rate: rate,
        bits_per_sample: 16,
        sample_format: hound::SampleFormat::Int,
    };
    let mut buf = std::io::Cursor::new(Vec::new());
    let mut writer = hound::WavWriter::new(&mut buf, spec).unwrap();
    for &s in samples {
        writer.write_sample(s).unwrap();
    }
    writer.finalize().unwrap();
    buf.into_inner()
}

/// Frames PCM16 samples as a mono WAV file at the target rate.
pub fn samples_to_wav(samples: &[i16]) -> (r: Vec<u8>)
    requires
        samples@.len() <= MAX_WAV_SAMPLES,
    ensures
        r@ == wav_file(TARGET_SAMPLE_RATE as nat, samples@),
{
    encode_pcm16_mono(samples, TARGET_SAMPLE_RATE)
}

proof fn lemma_pcm_bytes(s: Seq<i16>)
    ensures
        pcm_bytes(s).len() == 2 * s.len(),
        forall|k: int|
            0 <= k < s.len() ==> {
                &&& #[trigger] pcm_bytes(s)[2 * k] == le16(pcm_code(s[k]))[0]
                &&& pcm_bytes(s)[2 * k + 1] == le16(pcm_code(s[k]))[1]
            },
    decreases s.len(),
{
    if s.len() > 0 {
        lemma_pcm_bytes(s.drop_last());
        let p = pcm_bytes(s.drop_last());
        assert forall|k: int| 0 <= k < s.len() implies {
            &&& #[trigger] pcm_bytes(s)[2 * k] == le16(pcm_code(s[k]))[0]
            &&& pcm_bytes(s)[2 * k + 1] == le16(pcm_code(s[k]))[1]
        } by {
            if k < s.len() - 1 {
                assert(s.drop_last()[k] == s[k]);
            }
        }
    }
}

proof fn lemma_le16_read(v: nat)
    requires
        v < 65536,
    ensures
        read_le16(le16(v), 0) == v,
{
    let b = le16(v);
    assert(b[0] as nat == v % 256);
    assert(b[1] as nat == (v / 256) % 256);
}

proof fn lemma_le32_read(v: nat)
    requires
        v < 4294967296,
    ensures
        read_le32(le32(v), 0) == v,
{
    let b = le32(v);
    assert(b[0] as nat == v % 256);
    assert(b[1] as nat == (v / 256) % 256);
    assert(b[2] as nat == (v / 65536) % 256);
    assert(b[3] as nat == (v / 16777216) % 256);
    assert(v % 256 + 256 * ((v / 256) % 256) + 65536 * ((v / 65536) % 256) + 16777216 * ((v
        / 16777216) % 256) == v) by (nonlinear_arith)
        requires
            v < 4294967296,
    ;
}

/// Encoding samples and reading the file back gives a well-formed RIFF/WAVE
/// file that declares one channel of 16-bit samples at the target rate, holds
/// exactly as many frames as there were samples, and returns each sample.
pub proof fn wav_round_trip(s: Seq<i16>)
    requires
        s.len() <= MAX_WAV_SAMPLES,
    ensures
        is_riff_wave(wav_file(TARGET_SAMPLE_RATE as nat, s)),
        wav_channels(wav_file(TARGET_SAMPLE_RATE as nat, s)) == 1,
        wav_rate(wav_file(TARGET_SAMPLE_RATE as nat, s)) == TARGET_SAMPLE_RATE,
        wav_bits(wav_file(TARGET_SAMPLE_RATE as nat, s)) == 16,
        wav_frame_count(wav_file(TARGET_SAMPLE_RATE as nat, s)) == s.len(),
        forall|k: int|
            0 <= k < s.len() ==> wav_sample(wav_file(TARGET_SAMPLE_RATE as nat, s), k) == s[k],
{
    let rate = TARGET_SAMPLE_RATE as nat;
    let d = 2 * s.len();
    let h = wav_header(rate, d);
    let b = wav_file(rate, s);
    lemma_pcm_bytes(s);
    assert(h.len() == 44);
    assert(b.len() == 44 + d);
    assert forall|i: int| 0 <= i < 44 implies #[trigger] b[i] == h[i] by {}
    assert forall|j: int| 0 <= j < d implies #[trigger] b[44 + j] == pcm_bytes(s)[j] by {}
    lemma_le32_read(36 + d);
    lemma_le32_read(16);
    lemma_le16_read(1);
    lemma_le32_read(rate);
    lemma_le16_read(16);
    lemma_le32_read(d);
    assert(b.subrange(0, 4) =~= seq![82u8, 73, 70, 70]);
    assert(b.subrange(8, 12) =~= seq![87u8, 65, 86, 69]);
    assert(b.subrange(12, 16) =~= seq![102u8, 109, 116, 32]);
    assert(b.subrange(36, 40) =~= seq![100u8, 97, 116, 97]);
    assert(read_le32(b, 4) == read_le32(le32(36 + d), 0));
    assert(read_le16(b, 20) == read_le16(le16(1), 0));
    assert(read_le16(b, 22) == read_le16(le16(1), 0));
    assert(read_le32(b, 24) == read_le32(le32(rate), 0));
    assert(read_le16(b, 34) == read_le16(le16(16), 0));
    assert(read_le32(b, 40) == read_le32(le32(d), 0));
    assert forall|k: int| 0 <= k < s.len() implies wav_sample(b, k) == s[k] by {
        assert(b[44 + 2 * k] == pcm_bytes(s)[2 * k]);
        assert(b[44 + (2 * k + 1)] == pcm_bytes(s)[2 * k + 1]);
        lemma_le16_read(pcm_code(s[k]));
        assert(read_le16(b, 44 + 2 * k) == pcm_code(s[k]));
    }
}

} // verus!
