use vstd::arithmetic::div_mod::lemma_fundamental_div_mod;
use vstd::prelude::*;

verus! {

#[verifier::external_type_specification]
#[verifier::external_body]
pub struct ExHoundError(hound::Error);

/// The header of a WAV container, as the reader understood it.
#[derive(Clone, Copy, PartialEq, Eq, Structural)]
pub struct WavHeader {
    pub channels: u16,
    pub sample_rate: u32,
    pub bits_per_sample: u16,
    /// Integer PCM, as opposed to IEEE float samples.
    pub is_int: bool,
    /// Number of samples over all channels.
    pub num_samples: u32,
}

impl WavHeader {
    /// Number of frames: one sample for each channel.
    pub open spec fn frames(self) -> nat {
        (self.num_samples as int / self.channels as int) as nat
    }

    /// The only layout this library decodes: integer samples of 16 bits.
    pub open spec fn is_pcm16(self) -> bool {
        self.bits_per_sample == 16 && self.is_int
    }
}

/// Why stored data could not be decoded.
#[derive(Clone, Copy, PartialEq, Eq, Structural, Debug)]
pub enum DecodeError {
    /// Not a WAV container this library reads: bad header, or not 16-bit
    /// integer samples.
    UnsupportedFormat,
    /// The header was fine but the sample data could not be read.
    Io,
}

/// The header that `hound::WavReader::new` reads from the bytes, if any.
pub uninterp spec fn wav_header_of(bytes: Seq<u8>) -> Option<WavHeader>;

/// The samples, read as `i16`, that `hound::WavReader::into_samples` yields
/// from the bytes, if every one of them can be read.
pub uninterp spec fn wav_samples_of(bytes: Seq<u8>) -> Option<Seq<i16>>;

/// Relies on `hound::WavReader::new` and `WavReader::spec` / `len`: the
/// reader refuses zero channels and a data length that is not a whole
/// number of frames.
#[verifier::external_body]
fn read_header(bytes: &[u8]) -> (r: Result<WavHeader, hound::Error>)
    ensures
        r is Ok <==> wav_header_of(bytes@) is Some,
        r is Ok ==> wav_header_of(bytes@) == Some(r->Ok_0),
        r is Ok ==> r->Ok_0.channels > 0,
        r is Ok ==> r->Ok_0.num_samples as int % r->Ok_0.channels as int == 0,
{
    let rd = hound::WavReader::new(bytes)?;
    let s = rd.spec();
    let is_int = match s.sample_format {
        hound::SampleFormat::Int => true,
        hound::SampleFormat::Float => false,
    };
    Ok(WavHeader { channels: s.channels, sample_rate: s.sample_rate,
        bits_per_sample: s.bits_per_sample, is_int, num_samples: rd.len() })
}

/// Relies on `hound::WavReader::into_samples::<i16>`, collected: it yields
/// exactly `len()` samples of a reader that `WavReader::new` accepted.
#[verifier::external_body]
fn read_samples(bytes: &[u8]) -> (r: Result<Vec<i16>, hound::Error>)
    ensures
        r is Ok <==> wav_samples_of(bytes@) is Some,
        r is Ok ==> wav_samples_of(bytes@) == Some(r->Ok_0@),
        r is Ok ==> wav_header_of(bytes@) is Some
            && r->Ok_0@.len() == wav_header_of(bytes@)->Some_0.num_samples,
{
    let rd = hound::WavReader::new(bytes)?;
    rd.into_samples::<i16>().collect()
}

/// What decoding `bytes` gives: the samples of a 16-bit integer PCM WAV
/// container, or why there are none.
pub open spec fn decode_outcome(bytes: Seq<u8>) -> Result<Seq<i16>, DecodeError> {
    match wav_header_of(bytes) {
        None => Err(DecodeError::UnsupportedFormat),
        Some(h) => if !h.is_pcm16() {
            Err(DecodeError::UnsupportedFormat)
        } else {
            match wav_samples_of(bytes) {
                Some(s) => Ok(s),
                None => Err(DecodeError::Io),
            }
        },
    }
}

/// Decodes a whole stored WAV file into its interleaved 16-bit samples.
pub fn decode_wav(bytes: &[u8]) -> (r: Result<Vec<i16>, DecodeError>)
    ensures
        r is Ok <==> decode_outcome(bytes@) is Ok,
        r is Ok ==> decode_outcome(bytes@) == Ok::<Seq<i16>, DecodeError>(r->Ok_0@),
        r is Err ==> decode_outcome(bytes@) == Err::<Seq<i16>, DecodeError>(r->Err_0),
        r is Ok ==> wav_header_of(bytes@) is Some && r->Ok_0@.len() == wav_header_of(
            bytes@,
        )->Some_0.frames() * wav_header_of(bytes@)->Some_0.channels,
{
    let h = match read_header(bytes) {
        Ok(h) => h,
        Err(_) => return Err(DecodeError::UnsupportedFormat),
    };
    if h.bits_per_sample != 16 || !h.is_int {
        return Err(DecodeError::UnsupportedFormat);
    }
    match read_samples(bytes) {
        Ok(s) => {
            proof {
                let n = h.num_samples as int;
                let c = h.channels as int;
                lemma_fundamental_div_mod(n, c);
                assert(n / c >= 0) by (nonlinear_arith)
                    requires
                        n >= 0,
                        c > 0,
                ;
                assert(h.frames() * c == c * (n / c)) by (nonlinear_arith)
                    requires
                        h.frames() == n / c,
                ;
            }
            Ok(s)
        },
        Err(_) => Err(DecodeError::Io),
    }
}

/// Data whose header is unreadable, or whose samples are not 16-bit
/// integers, is refused as an unsupported format, never partly decoded.
pub proof fn lemma_unsupported_refused(bytes: Seq<u8>)
    requires
        wav_header_of(bytes) is None || !wav_header_of(bytes)->Some_0.is_pcm16(),
    ensures
        decode_outcome(bytes) == Err::<Seq<i16>, DecodeError>(DecodeError::UnsupportedFormat),
{
}

} // verus!
