//! The WAV container the finished recording is saved in: a 44-byte RIFF
//! header for 16 kHz mono 16-bit PCM, then the samples.
use vstd::bytes::{
    spec_u16_to_le_bytes, spec_u32_from_le_bytes, spec_u32_to_le_bytes, u16_to_le_bytes,
    u32_to_le_bytes,
};
use vstd::prelude::*;

verus! {

/// The sample rate the recogniser needs and recordings are saved at.
pub const WHISPER_SAMPLE_RATE: u32 = 16000;

pub const WAV_CHANNELS: u16 = 1;

pub const WAV_BITS_PER_SAMPLE: u16 = 16;

/// Bytes in the header before the samples.
pub const WAV_HEADER_LEN: usize = 44;

pub open spec fn riff_tag() -> Seq<u8> {
    seq![0x52u8, 0x49, 0x46, 0x46]
}

pub open spec fn wave_tag() -> Seq<u8> {
    seq![0x57u8, 0x41, 0x56, 0x45]
}

pub open spec fn fmt_tag() -> Seq<u8> {
    seq![0x66u8, 0x6d, 0x74, 0x20]
}

pub open spec fn data_tag() -> Seq<u8> {
    seq![0x64u8, 0x61, 0x74, 0x61]
}

/// Bytes per sample frame: channels times bytes per sample.
pub open spec fn block_align() -> u16 {
    (WAV_CHANNELS * (WAV_BITS_PER_SAMPLE / 8)) as u16
}

/// Bytes per second of audio.
pub open spec fn byte_rate() -> u32 {
    (WHISPER_SAMPLE_RATE * block_align()) as u32
}

/// The 44-byte header for `data_size` bytes of samples.
pub open spec fn wav_header(data_size: u32) -> Seq<u8> {
    riff_tag() + spec_u32_to_le_bytes((36 + data_size) as u32) + wave_tag() + fmt_tag()
        + spec_u32_to_le_bytes(16) + spec_u16_to_le_bytes(1) + spec_u16_to_le_bytes(WAV_CHANNELS)
        + spec_u32_to_le_bytes(WHISPER_SAMPLE_RATE) + spec_u32_to_le_bytes(byte_rate())
        + spec_u16_to_le_bytes(block_align()) + spec_u16_to_le_bytes(WAV_BITS_PER_SAMPLE)
        + data_tag() + spec_u32_to_le_bytes(data_size)
}

/// The WAV file holding the 16-bit little-endian samples `pcm`.
pub open spec fn wav_file(pcm: Seq<u8>) -> Seq<u8> {
    wav_header(pcm.len() as u32) + pcm
}

fn append_bytes(v: &mut Vec<u8>, s: &[u8])
    ensures
        final(v)@ == old(v)@ + s@,
{
    let mut k: usize = 0;
    while k < s.len()
        invariant
            k <= s@.len(),
            v@ == old(v)@ + s@.subrange(0, k as int),
        decreases s@.len() - k,
    {
        v.push(s[k]);
        assert(v@ =~= old(v)@ + s@.subrange(0, k + 1));
        k = k + 1;
    }
    assert(s@.subrange(0, s@.len() as int) =~= s@);
}

/// Wrap 16-bit PCM samples in a WAV file. The RIFF size field must fit in
/// 32 bits.
pub fn build_wav_file(pcm: &[u8]) -> (file: Vec<u8>)
    requires
        pcm@.len() + 36 <= u32::MAX,
    ensures
        file@ == wav_file(pcm@),
{
    let data_size: u32 = pcm.len() as u32;
    let file_size: u32 = 36 + data_size;
    let block: u16 = WAV_CHANNELS * (WAV_BITS_PER_SAMPLE / 8);
    let rate: u32 = WHISPER_SAMPLE_RATE * (block as u32);
    let riff: Vec<u8> = vec![0x52u8, 0x49, 0x46, 0x46];
    let wave: Vec<u8> = vec![0x57u8, 0x41, 0x56, 0x45];
    let fmt: Vec<u8> = vec![0x66u8, 0x6d, 0x74, 0x20];
    let data: Vec<u8> = vec![0x64u8, 0x61, 0x74, 0x61];
    assert(riff@ =~= riff_tag());
    assert(wave@ =~= wave_tag());
    assert(fmt@ =~= fmt_tag());
    assert(data@ =~= data_tag());
    let mut file: Vec<u8> = Vec::new();
    append_bytes(&mut file, riff.as_slice());
    append_bytes(&mut file, u32_to_le_bytes(file_size).as_slice());
    append_bytes(&mut file, wave.as_slice());
    append_bytes(&mut file, fmt.as_slice());
    append_bytes(&mut file, u32_to_le_bytes(16).as_slice());
    append_bytes(&mut file, u16_to_le_bytes(1).as_slice());
    append_bytes(&mut file, u16_to_le_bytes(WAV_CHANNELS).as_slice());
    append_bytes(&mut file, u32_to_le_bytes(WHISPER_SAMPLE_RATE).as_slice());
    append_bytes(&mut file, u32_to_le_bytes(rate).as_slice());
    append_bytes(&mut file, u16_to_le_bytes(block).as_slice());
    append_bytes(&mut file, u16_to_le_bytes(WAV_BITS_PER_SAMPLE).as_slice());
    append_bytes(&mut file, data.as_slice());
    append_bytes(&mut file, u32_to_le_bytes(data_size).as_slice());
    assert(file@ =~= wav_header(data_size));
    append_bytes(&mut file, pcm);
    file
}

/// The header of a WAV file describes the file: it is 44 bytes long, its
/// RIFF size field counts the bytes after the first 8, and its data size
/// field counts the sample bytes.
pub proof fn lemma_wav_sizes_describe_file(pcm: Seq<u8>)
    requires
        pcm.len() + 36 <= u32::MAX,
    ensures
        wav_file(pcm).len() == 44 + pcm.len(),
        spec_u32_from_le_bytes(wav_file(pcm).subrange(4, 8)) == wav_file(pcm).len() - 8,
        spec_u32_from_le_bytes(wav_file(pcm).subrange(40, 44)) == pcm.len(),
        wav_file(pcm).subrange(44, wav_file(pcm).len() as int) == pcm,
{
    vstd::bytes::lemma_auto_spec_u32_to_from_le_bytes();
    vstd::bytes::lemma_auto_spec_u16_to_from_le_bytes();
    let f = wav_file(pcm);
    let d: u32 = pcm.len() as u32;
    assert(f.subrange(4, 8) =~= spec_u32_to_le_bytes((36 + d) as u32));
    assert(f.subrange(40, 44) =~= spec_u32_to_le_bytes(d));
    assert(f.subrange(44, f.len() as int) =~= pcm);
}

} // verus!
