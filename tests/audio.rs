use deepspeech_server::audio::{
    decide_decoding, decode_audio, holds_ogg_page_header, is_probe_allowed, starts_with_caf_magic, ensure_valid_audio, raw_pcm_samples, warmup_samples,
    AudioDescriptor, AudioFormat, DecodedAudio, AUDIO_SAMPLE_RATE,
};

fn wav_bytes(channels: u16, rate: u32, samples: &[i16]) -> Vec<u8> {
    let data_len = (samples.len() * 2) as u32;
    let block_align = channels * 2;
    let mut b = Vec::new();
    b.extend_from_slice(b"RIFF");
    b.extend_from_slice(&(36 + data_len).to_le_bytes());
    b.extend_from_slice(b"WAVE");
    b.extend_from_slice(b"fmt ");
    b.extend_from_slice(&16u32.to_le_bytes());
    b.extend_from_slice(&1u16.to_le_bytes());
    b.extend_from_slice(&channels.to_le_bytes());
    b.extend_from_slice(&rate.to_le_bytes());
    b.extend_from_slice(&(rate * block_align as u32).to_le_bytes());
    b.extend_from_slice(&block_align.to_le_bytes());
    b.extend_from_slice(&16u16.to_le_bytes());
    b.extend_from_slice(b"data");
    b.extend_from_slice(&data_len.to_le_bytes());
    for s in samples {
        b.extend_from_slice(&s.to_le_bytes());
    }
    b
}

fn wav_desc(channel_count: u32, sample_rate: u32) -> AudioDescriptor {
    AudioDescriptor { format: AudioFormat::Wav, channel_count, sample_rate }
}

#[test]
fn valid_profile_is_mono_wav_at_trained_rate() {
    assert!(ensure_valid_audio(wav_desc(1, 16000)));
    assert!(!ensure_valid_audio(wav_desc(2, 16000)));
    assert!(!ensure_valid_audio(wav_desc(1, 44100)));
    assert!(!ensure_valid_audio(AudioDescriptor {
        format: AudioFormat::Flac,
        channel_count: 1,
        sample_rate: 16000
    }));
}

#[test]
fn raw_samples_are_little_endian() {
    assert_eq!(raw_pcm_samples(&[0x00, 0x00]), vec![0]);
    assert_eq!(raw_pcm_samples(&[0x01, 0x02, 0xff, 0xff]), vec![0x0201, -1]);
    assert_eq!(raw_pcm_samples(&[0x00, 0x80]), vec![i16::MIN]);
    assert_eq!(raw_pcm_samples(&[0xff, 0x7f]), vec![i16::MAX]);
}

#[test]
fn raw_samples_drop_odd_trailing_byte() {
    assert_eq!(raw_pcm_samples(&[0x10, 0x00, 0x07]), vec![16]);
    assert_eq!(raw_pcm_samples(&[0x07]), Vec::<i16>::new());
    assert_eq!(raw_pcm_samples(&[]), Vec::<i16>::new());
}

#[test]
fn decision_without_container_reads_raw() {
    match decide_decoding(&[0x00, 0x00], None, None) {
        DecodedAudio::Samples(s) => assert_eq!(s, vec![0]),
        DecodedAudio::Rejected => panic!("raw payload refused"),
    }
}

#[test]
fn decision_with_wrong_profile_refuses() {
    let r = decide_decoding(&[0x00, 0x00], Some(wav_desc(2, 16000)), Some(vec![5, 6]));
    assert!(matches!(r, DecodedAudio::Rejected));
    let r = decide_decoding(&[0x00, 0x00], Some(wav_desc(1, 8000)), Some(vec![5, 6]));
    assert!(matches!(r, DecodedAudio::Rejected));
}

#[test]
fn decision_with_valid_container_uses_its_samples() {
    match decide_decoding(&[0x00, 0x00], Some(wav_desc(1, 16000)), Some(vec![5, 6])) {
        DecodedAudio::Samples(s) => assert_eq!(s, vec![5, 6]),
        DecodedAudio::Rejected => panic!("valid container refused"),
    }
    let r = decide_decoding(&[0x00, 0x00], Some(wav_desc(1, 16000)), None);
    assert!(matches!(r, DecodedAudio::Rejected));
}

#[test]
fn two_zero_bytes_decode_to_one_zero_sample() {
    match decode_audio(&[0x00, 0x00]) {
        DecodedAudio::Samples(s) => assert_eq!(s, vec![0]),
        DecodedAudio::Rejected => panic!("raw payload refused"),
    }
}

#[test]
fn mono_wav_at_trained_rate_decodes_to_its_samples() {
    let wav = wav_bytes(1, AUDIO_SAMPLE_RATE, &[1, -2, 300]);
    match decode_audio(&wav) {
        DecodedAudio::Samples(s) => assert_eq!(s, vec![1, -2, 300]),
        DecodedAudio::Rejected => panic!("valid container refused"),
    }
}

#[test]
fn stereo_wav_is_refused() {
    let wav = wav_bytes(2, AUDIO_SAMPLE_RATE, &[1, 2, 3, 4]);
    assert!(matches!(decode_audio(&wav), DecodedAudio::Rejected));
}

#[test]
fn wav_at_other_rate_is_refused() {
    let wav = wav_bytes(1, 44100, &[1, 2]);
    assert!(matches!(decode_audio(&wav), DecodedAudio::Rejected));
}

#[test]
fn warmup_reads_any_wav() {
    let wav = wav_bytes(2, 44100, &[7, 8]);
    assert_eq!(warmup_samples(&wav), Some(vec![7, 8]));
    assert_eq!(warmup_samples(&[0x00, 0x00]), None);
}

const CAF_NEGATIVE_CHUNK: [u8; 20] = [
    0x63, 0x61, 0x66, 0x66, 0x00, 0x01, 0x00, 0x00, 0x64, 0x65, 0x73, 0x63, 0xff, 0xff, 0xff,
    0xff, 0xff, 0xff, 0xff, 0xff,
];

#[test]
fn caf_magic_is_recognised() {
    assert!(starts_with_caf_magic(&CAF_NEGATIVE_CHUNK));
    assert!(starts_with_caf_magic(&CAF_NEGATIVE_CHUNK[..8]));
    assert!(!starts_with_caf_magic(&CAF_NEGATIVE_CHUNK[..7]));
    assert!(!starts_with_caf_magic(&[0x63, 0x61, 0x66, 0x66, 0x00, 0x01, 0x00, 0x01]));
    assert!(!starts_with_caf_magic(b"RIFF\0\0\0\0WAVE"));
}

#[test]
fn caf_payload_with_negative_chunk_size_is_refused() {
    assert!(matches!(decode_audio(&CAF_NEGATIVE_CHUNK), DecodedAudio::Rejected));
    assert_eq!(warmup_samples(&CAF_NEGATIVE_CHUNK), None);
}

fn ogg_page_at(offset: usize, version: u8) -> Vec<u8> {
    let mut b = vec![0x11u8; offset];
    b.extend_from_slice(b"OggS");
    b.push(version);
    b.extend_from_slice(&[0u8; 22]);
    b
}

#[test]
fn ogg_page_header_needs_whole_header_and_version_zero() {
    assert!(holds_ogg_page_header(&ogg_page_at(0, 0)));
    assert!(holds_ogg_page_header(&ogg_page_at(5, 0)));
    assert!(!holds_ogg_page_header(&ogg_page_at(0, 1)));
    assert!(!holds_ogg_page_header(b"OggS"));
    assert!(!holds_ogg_page_header(&ogg_page_at(0, 0)[..26]));
    assert!(!holds_ogg_page_header(&[]));
}

#[test]
fn only_the_first_ogg_capture_counts() {
    let mut b = ogg_page_at(0, 1);
    b.extend_from_slice(&ogg_page_at(0, 0));
    assert!(!holds_ogg_page_header(&b));
}

#[test]
fn ogg_capture_past_search_window_is_ignored() {
    assert!(holds_ogg_page_header(&ogg_page_at(153599, 0)));
    assert!(!holds_ogg_page_header(&ogg_page_at(153600, 0)));
}

#[test]
fn payload_with_ogg_page_header_is_refused() {
    let payload = ogg_page_at(2, 0);
    assert!(!is_probe_allowed(&payload));
    assert!(matches!(decode_audio(&payload), DecodedAudio::Rejected));
    assert_eq!(warmup_samples(&payload), None);
    assert!(is_probe_allowed(&[0x00, 0x00]));
    assert!(!is_probe_allowed(&CAF_NEGATIVE_CHUNK));
}

#[test]
fn headerless_payload_holding_ogg_capture_is_read_raw() {
    match decode_audio(b"OggS") {
        DecodedAudio::Samples(s) => assert_eq!(s, vec![0x674f, 0x5367]),
        DecodedAudio::Rejected => panic!("raw payload refused"),
    }
    match decode_audio(b"OggS\0") {
        DecodedAudio::Samples(s) => assert_eq!(s, vec![0x674f, 0x5367]),
        DecodedAudio::Rejected => panic!("raw payload refused"),
    }
}

#[test]
fn mono_wav_holding_ogg_capture_decodes_to_its_samples() {
    let mut samples = vec![0x674f, 0x5367];
    samples.extend_from_slice(&[0i16; 14]);
    let wav = wav_bytes(1, AUDIO_SAMPLE_RATE, &samples);
    assert!(holds_ogg_page_header(&wav));
    assert!(is_probe_allowed(&wav));
    match decode_audio(&wav) {
        DecodedAudio::Samples(s) => assert_eq!(s, samples),
        DecodedAudio::Rejected => panic!("valid container refused"),
    }
    assert_eq!(warmup_samples(&wav), Some(samples));
}
