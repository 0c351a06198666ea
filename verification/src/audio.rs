//! PCM audio framing for the Live session: base64 packets to samples and back.
use vstd::prelude::*;

use base64::Engine;
use vstd::string::StringSliceAdditionalSpecFns;
use vstd::utf8::{encode_utf8, is_ascii_chars};

use crate::error::InternalVoiceError;
use crate::text::push_str;

verus! {

/// Decoding with the standard base64 alphabet and padding: the bytes, or the error's
/// message.
pub uninterp spec fn base64_decode(input: Seq<u8>) -> Result<Seq<u8>, Seq<char>>;

/// Encoding with the standard base64 alphabet and padding.
pub uninterp spec fn base64_encode(input: Seq<u8>) -> Seq<char>;

/// `base64::engine::general_purpose::STANDARD.decode`, the error given by its message.
#[verifier::external_body]
fn standard_decode(input: &[u8]) -> (r: Result<Vec<u8>, String>)
    ensures
        match r {
            Ok(b) => base64_decode(input@) == Ok::<Seq<u8>, Seq<char>>(b@),
            Err(e) => base64_decode(input@) == Err::<Seq<u8>, Seq<char>>(e@),
        },
{
    match base64::engine::general_purpose::STANDARD.decode(input) {
        Ok(b) => Ok(b),
        Err(e) => Err(e.to_string()),
    }
}

/// Base64 text that decodes to `bytes`.
pub open spec fn decodes_to(text: Seq<char>, bytes: Seq<u8>) -> bool {
    base64_decode(encode_utf8(text)) == Ok::<Seq<u8>, Seq<char>>(bytes)
}

/// `base64::engine::general_purpose::STANDARD.encode`: four ASCII characters for each
/// started group of three bytes (padded with `=`), which the same engine decodes back to
/// the input.
#[verifier::external_body]
fn standard_encode(input: &[u8]) -> (r: String)
    requires
        input@.len() <= usize::MAX / 2,
    ensures
        r@ == base64_encode(input@),
        r@.len() == 4 * ((input@.len() + 2) / 3),
        is_ascii_chars(r@),
        decodes_to(r@, input@),
{
    base64::engine::general_purpose::STANDARD.encode(input)
}

/// Packets shorter than this many bytes are markers or padding, not audio.
pub const MIN_AUDIO_PACKET_BYTES: usize = 64;

/// The little-endian 16-bit sample made of bytes `lo` and `hi`.
pub open spec fn sample_of(lo: u8, hi: u8) -> i16 {
    let u = lo as int + 256 * hi as int;
    (if u >= 32768 {
        u - 65536
    } else {
        u
    }) as i16
}

/// The samples of PCM bytes, two bytes each; an odd last byte is dropped.
pub open spec fn samples_of(bytes: Seq<u8>) -> Seq<i16> {
    Seq::new(bytes.len() / 2, |i: int| sample_of(bytes[2 * i], bytes[2 * i + 1]))
}

/// The bytes of samples, two little-endian bytes each.
pub open spec fn bytes_of(samples: Seq<i16>) -> Seq<u8> {
    Seq::new(samples.len() * 2, |k: int| {
        let u = if samples[k / 2] < 0 { samples[k / 2] + 65536 } else { samples[k / 2] as int };
        if k % 2 == 0 { (u % 256) as u8 } else { (u / 256) as u8 }
    })
}

/// The samples of a decoded packet: none for a packet shorter than 64 bytes (a marker
/// or padding frame), the little-endian 16-bit samples otherwise.
pub fn pcm_packet(bytes: &Vec<u8>) -> (r: Option<Vec<i16>>)
    ensures
        bytes@.len() < MIN_AUDIO_PACKET_BYTES ==> r is None,
        bytes@.len() >= MIN_AUDIO_PACKET_BYTES ==> (r matches Some(s) && s@ == samples_of(bytes@)),
{
    if bytes.len() < MIN_AUDIO_PACKET_BYTES {
        return None;
    }
    let mut samples: Vec<i16> = Vec::new();
    let mut i: usize = 0;
    while i + 1 < bytes.len()
        invariant
            i == 2 * samples.len(),
            i <= bytes.len(),
            forall|k: int| 0 <= k < samples.len() ==> samples@[k] == sample_of(bytes@[2 * k], bytes@[2 * k + 1]),
        decreases bytes.len() - i,
    {
        let u: u32 = bytes[i] as u32 + 256 * (bytes[i + 1] as u32);
        let s: i16 = if u >= 32768 { (u as i32 - 65536) as i16 } else { u as i16 };
        samples.push(s);
        i = i + 2;
    }
    assert(samples@ =~= samples_of(bytes@));
    Some(samples)
}

/// The error for a packet that is not valid base64.
pub fn pcm_decode_error(message: &str) -> (e: InternalVoiceError)
    ensures
        e matches InternalVoiceError::Audio(m) && m@ == "Base64 decode error: "@ + message@,
{
    let mut m = String::from_str("Base64 decode error: ");
    push_str(&mut m, message);
    InternalVoiceError::Audio(m)
}

/// Decodes a base64 packet of 16-bit little-endian PCM: `Ok(None)` for a packet shorter
/// than 64 bytes, the samples otherwise; an undecodable packet is an audio error.
pub fn decode_pcm(base64_data: &str) -> (r: Result<Option<Vec<i16>>, InternalVoiceError>)
    ensures
        match base64_decode(base64_data.spec_bytes()) {
            Ok(bytes) => if bytes.len() < MIN_AUDIO_PACKET_BYTES {
                r == Ok::<Option<Vec<i16>>, InternalVoiceError>(None)
            } else {
                r matches Ok(Some(s)) && s@ == samples_of(bytes)
            },
            Err(m) => r matches Err(InternalVoiceError::Audio(e)) && e@ == "Base64 decode error: "@ + m,
        },
{
    match standard_decode(base64_data.as_bytes()) {
        Ok(bytes) => Ok(pcm_packet(&bytes)),
        Err(m) => Err(pcm_decode_error(m.as_str())),
    }
}

/// The little-endian bytes of 16-bit samples.
pub fn pcm_bytes(samples: &Vec<i16>) -> (bytes: Vec<u8>)
    requires
        samples@.len() * 2 <= usize::MAX / 2,
    ensures
        bytes@ == bytes_of(samples@),
{
    let mut bytes: Vec<u8> = Vec::new();
    let mut i: usize = 0;
    while i < samples.len()
        invariant
            0 <= i <= samples.len(),
            samples@.len() * 2 <= usize::MAX / 2,
            bytes@.len() == 2 * i,
            forall|k: int| 0 <= k < 2 * i ==> bytes@[k] == bytes_of(samples@)[k],
        decreases samples.len() - i,
    {
        let s = samples[i];
        let u: u32 = if s < 0 { (s as i32 + 65536) as u32 } else { s as u32 };
        bytes.push((u % 256) as u8);
        bytes.push((u / 256) as u8);
        i = i + 1;
    }
    assert(bytes@ =~= bytes_of(samples@));
    bytes
}

/// Encodes 16-bit samples as little-endian PCM bytes in base64.
pub fn encode_pcm(samples: &Vec<i16>) -> (r: String)
    requires
        samples@.len() * 2 <= usize::MAX / 2,
    ensures
        r@ == base64_encode(bytes_of(samples@)),
        r@.len() == 4 * ((2 * samples@.len() + 2) / 3),
        is_ascii_chars(r@),
        decodes_to(r@, bytes_of(samples@)),
{
    let bytes = pcm_bytes(samples);
    standard_encode(bytes.as_slice())
}

/// The PCM framing loses nothing: the samples of the bytes of any samples are those
/// samples, two bytes each.
pub proof fn law_pcm_framing_round_trip(samples: Seq<i16>)
    ensures
        bytes_of(samples).len() == 2 * samples.len(),
        samples_of(bytes_of(samples)) == samples,
{
    let b = bytes_of(samples);
    assert forall|i: int| 0 <= i < samples.len() implies #[trigger] samples_of(b)[i] == samples[i] by {
        let x = samples[i];
        let u: int = if x < 0 { x + 65536 } else { x as int };
        assert(2 * i / 2 == i && (2 * i + 1) / 2 == i) by (nonlinear_arith);
        assert((2 * i) % 2 == 0 && (2 * i + 1) % 2 == 1) by (nonlinear_arith);
        assert(b[2 * i] == (u % 256) as u8);
        assert(b[2 * i + 1] == (u / 256) as u8);
        assert(0 <= u < 65536);
        assert((u % 256) + 256 * (u / 256) == u && 0 <= u % 256 < 256 && 0 <= u / 256 < 256) by (nonlinear_arith)
            requires
                0 <= u < 65536,
        ;
    }
    assert(samples_of(b) =~= samples);
}

} // verus!
