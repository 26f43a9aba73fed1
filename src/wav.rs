//! The PCM container that a finished recording is encoded into.

use vstd::prelude::*;

verus! {

/// The bytes of a 16-bit signed integer PCM WAVE container holding
/// `samples` (interleaved by channel) at the given rate and channel count.
pub uninterp spec fn wav_pcm16(samples: Seq<i16>, sample_rate: u32, channels: u16) -> Seq<u8>;

/// Length of the container's header: the plain PCM format block for mono
/// and stereo, the extensible one for more channels.
pub open spec fn wav_header_len(channels: u16) -> nat {
    if channels <= 2 {
        44
    } else {
        68
    }
}

/// `x` as two little-endian bytes.
pub open spec fn le16(x: nat) -> Seq<u8> {
    seq![(x % 256) as u8, ((x / 256) % 256) as u8]
}

/// `x` as four little-endian bytes.
pub open spec fn le32(x: nat) -> Seq<u8> {
    le16(x % 0x1_0000) + le16((x / 0x1_0000) % 0x1_0000)
}

/// The two's complement bit pattern of a sample.
pub open spec fn sample_bits(x: i16) -> nat {
    ((x as int) % 0x1_0000) as nat
}

/// The samples as consecutive little-endian two's complement pairs.
pub open spec fn le_samples(samples: Seq<i16>) -> Seq<u8> {
    Seq::new(
        2 * samples.len(),
        |i: int|
            if i % 2 == 0 {
                (sample_bits(samples[i / 2]) % 256) as u8
            } else {
                (sample_bits(samples[i / 2]) / 256) as u8
            },
    )
}

/// The 44-byte header of a plain PCM container for `n` 16-bit samples:
/// the RIFF and WAVE tags, the format block and the data chunk's header.
pub open spec fn pcm_header(n: nat, sample_rate: u32, channels: u16) -> Seq<u8> {
    seq![0x52u8, 0x49u8, 0x46u8, 0x46u8] + le32(36 + 2 * n) + seq![0x57u8, 0x41u8, 0x56u8, 0x45u8]
        + seq![0x66u8, 0x6du8, 0x74u8, 0x20u8] + le32(16) + le16(1) + le16(channels as nat) + le32(
        sample_rate as nat,
    ) + le32(sample_rate as nat * 2 * channels as nat) + le16(2 * channels as nat) + le16(16)
        + seq![0x64u8, 0x61u8, 0x74u8, 0x61u8] + le32(2 * n)
}

/// A plain PCM container: header, then the samples.
pub open spec fn pcm_wav(samples: Seq<i16>, sample_rate: u32, channels: u16) -> Seq<u8> {
    pcm_header(samples.len(), sample_rate, channels) + le_samples(samples)
}

/// The sample stored at the `i`-th pair of the data bytes.
pub open spec fn decoded_sample(data: Seq<u8>, i: int) -> int {
    let v = data[2 * i] as int + 256 * data[2 * i + 1] as int;
    if v >= 0x8000 {
        v - 0x1_0000
    } else {
        v
    }
}

/// Decoding the data bytes of a plain PCM container gives back every sample,
/// in order.
pub proof fn lemma_pcm_samples_round_trip(samples: Seq<i16>, sample_rate: u32, channels: u16)
    ensures
        pcm_wav(samples, sample_rate, channels).len() == 44 + 2 * samples.len(),
        forall|i: int|
            0 <= i < samples.len() ==> decoded_sample(
                #[trigger] pcm_wav(samples, sample_rate, channels).subrange(
                    44,
                    44 + 2 * samples.len() as int,
                ),
                i,
            ) == samples[i] as int,
{
    let h = pcm_header(samples.len(), sample_rate, channels);
    assert(h.len() == 44);
    let w = pcm_wav(samples, sample_rate, channels);
    let data = w.subrange(44, 44 + 2 * samples.len() as int);
    assert(data =~= le_samples(samples));
    assert forall|i: int| 0 <= i < samples.len() implies decoded_sample(data, i)
        == samples[i] as int by {
        let x = samples[i];
        let u = sample_bits(x);
        assert((2 * i) / 2 == i && (2 * i) % 2 == 0 && (2 * i + 1) / 2 == i && (2 * i + 1) % 2
            == 1);
        assert(data[2 * i] == (u % 256) as u8);
        assert(data[2 * i + 1] == (u / 256) as u8);
        assert(0 <= u < 0x1_0000);
        assert((u % 256) + 256 * (u / 256) == u) by (nonlinear_arith);
        assert(u / 256 < 256) by (nonlinear_arith)
            requires
                0 <= u < 0x1_0000,
        ;
        assert(u == ((x as int) % 0x1_0000));
        assert((x as int) >= 0 ==> u == x as int);
        assert((x as int) < 0 ==> u == (x as int) + 0x1_0000);
    }
}

/// Whether `n` samples at this rate and channel count fit the container's
/// 32-bit size fields.
pub open spec fn wav_encodable(sample_rate: u32, channels: u16, n: nat) -> bool {
    &&& sample_rate > 0
    &&& channels > 0
    &&& sample_rate * 2 * channels <= u32::MAX
    &&& 2 * n + 60 <= u32::MAX
}

/// Relies on hound's `WavWriter` (`new`, `write_sample`, `finalize`) writing
/// to an in-memory cursor: a sample count that is not a multiple of the
/// channel count is refused at finalization; otherwise the bytes are the
/// header followed by two little-endian bytes per sample, and for one or two
/// channels the header is the plain PCM one.
#[verifier::external_body]
pub(crate) fn encode_wav(samples: &Vec<i16>, sample_rate: u32, channels: u16) -> (r: Option<Vec<u8>>)
    requires
        wav_encodable(sample_rate, channels, samples@.len()),
    ensures
        r is Some <==> samples@.len() % (channels as nat) == 0,
        r matches Some(b) ==> b@ == wav_pcm16(samples@, sample_rate, channels) && b@.len()
            == wav_header_len(channels) + 2 * samples@.len(),
        channels <= 2 ==> (r matches Some(b) ==> b@ == pcm_wav(samples@, sample_rate, channels)),
{
    let spec = hound::WavSpec {
        channels,
        sample_rate,
        bits_per_sample: 16,
        sample_format: hound::SampleFormat::Int,
    };
    let mut out = std::io::Cursor::new(Vec::new());
    let mut writer = hound::WavWriter::new(&mut out, spec).ok()?;
    for &s in samples.iter() {
        writer.write_sample(s).ok()?;
    }
    writer.finalize().ok()?;
    Some(out.into_inner())
}

} // verus!
