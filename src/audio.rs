//! Normalisation of an audio payload into the samples fed to the engine:
//! a structured container decode with validation, falling back to raw
//! little-endian 16-bit PCM when the payload is no container at all.
use vstd::prelude::*;

verus! {

/// The sample rate the engine was trained on, in hertz.
pub const AUDIO_SAMPLE_RATE: u32 = 16000;

/// The only channel count the engine accepts.
pub const AUDIO_CHANNELS: u32 = 1;

/// The container families the structured decoder recognises.
#[derive(Debug, Clone, Copy, PartialEq, Eq, Structural)]
pub enum AudioFormat {
    Flac,
    OggVorbis,
    Wav,
    CafAlac,
}

/// What a container's header says of the audio it holds.
#[derive(Debug, Clone, Copy, PartialEq, Eq, Structural)]
pub struct AudioDescriptor {
    pub format: AudioFormat,
    pub channel_count: u32,
    pub sample_rate: u32,
}

/// The eight bytes that open a Core Audio Format (CAF) file.
pub open spec fn caf_magic() -> Seq<u8> {
    seq![0x63u8, 0x61u8, 0x66u8, 0x66u8, 0x00u8, 0x01u8, 0x00u8, 0x00u8]
}

/// `payload` opens with the CAF magic. audrey's CAF reader (the `caf`
/// crate) parses the chunks of such a payload and panics, or never returns,
/// on a chunk whose size field is negative; the probes are not run on it.
/// CAF is a family the engine never accepts, so such a payload is refused.
pub open spec fn has_caf_magic(payload: Seq<u8>) -> bool {
    payload.len() >= 8 && payload.subrange(0, 8) == caf_magic()
}

/// The Ogg capture pattern `OggS` starts at offset `i` of `payload`.
pub open spec fn ogg_capture_at(payload: Seq<u8>, i: int) -> bool {
    &&& 0 <= i
    &&& i + 4 <= payload.len()
    &&& payload[i] == 0x4fu8
    &&& payload[i + 1] == 0x67u8
    &&& payload[i + 2] == 0x67u8
    &&& payload[i + 3] == 0x53u8
}

/// How far into a payload the Ogg reader searches for its first capture
/// pattern; past this it gives up.
pub const OGG_SEARCH_WINDOW: usize = 153600;

/// The length of an Ogg page header.
pub const OGG_PAGE_HEADER_LEN: usize = 27;

/// The first Ogg capture pattern of `payload` starts at offset `k`.
pub open spec fn first_ogg_capture_at(payload: Seq<u8>, k: int) -> bool {
    &&& ogg_capture_at(payload, k)
    &&& forall|j: int| 0 <= j < k ==> !#[trigger] ogg_capture_at(payload, j)
}

/// `payload` holds what the Ogg reader takes for its first page header: the
/// first capture pattern lies inside the search window, a whole header
/// follows it, and its version byte is 0. From there audrey's Ogg reader
/// hands the stream to lewton, which sizes allocations by counts read from
/// it and can abort the process. (The header's checksum is not looked at,
/// so a few payloads the reader would drop are counted here too.)
pub open spec fn has_ogg_page_header(payload: Seq<u8>) -> bool {
    exists|k: int|
        #[trigger] first_ogg_capture_at(payload, k) && k < OGG_SEARCH_WINDOW && k
            + OGG_PAGE_HEADER_LEN <= payload.len() && payload[k + 4] == 0u8
}

/// The container probes are not run on `payload` unless hound reads it as
/// WAV: audrey tries WAV before CAF and Ogg, and stops at the first format
/// that reads.
pub open spec fn probe_excluded(payload: Seq<u8>) -> bool {
    has_caf_magic(payload) || has_ogg_page_header(payload)
}

/// Whether hound's WAV reader opens `payload`.
pub uninterp spec fn wav_accepted(payload: Seq<u8>) -> bool;

/// The probes may be run on `payload`.
pub open spec fn probe_allowed(payload: Seq<u8>) -> bool {
    wav_accepted(payload) || !probe_excluded(payload)
}

/// The descriptor that audrey reads from the header of `payload`, or `None`
/// when audrey recognises no container there.
pub uninterp spec fn container_descriptor(payload: Seq<u8>) -> Option<AudioDescriptor>;

/// The interleaved samples, converted to `i16`, that audrey reads from the
/// container in `payload`, or `None` when there is no container or a sample
/// cannot be read.
pub uninterp spec fn container_samples(payload: Seq<u8>) -> Option<Seq<i16>>;

/// Relies on `hound::WavReader::new` (re-exported by audrey), the reader
/// that audrey's `Reader::new` tries first: it reads the RIFF header and the
/// chunks up to the data chunk, and fails on anything else.
#[verifier::external_body]
fn accepts_wav(payload: &[u8]) -> (r: bool)
    ensures
        r == wav_accepted(payload@),
{
    audrey::hound::WavReader::new(std::io::Cursor::new(payload)).is_ok()
}

/// Relies on `audrey::read::Reader::new`, which tries each supported
/// container format on the bytes and fails when none matches, and on
/// `Reader::description` with its `format`, `channel_count` and
/// `sample_rate` accessors, which report the header that was read. Payloads
/// that are not `probe_allowed` are left out: on them the CAF or Ogg reader
/// can panic, hang or abort the process.
#[verifier::external_body]
fn probe_container(payload: &[u8]) -> (r: Option<AudioDescriptor>)
    requires
        probe_allowed(payload@),
    ensures
        r == container_descriptor(payload@),
{
    let reader = audrey::read::Reader::new(std::io::Cursor::new(payload)).ok()?;
    let desc = reader.description();
    let format = match desc.format() {
        audrey::Format::Flac => AudioFormat::Flac,
        audrey::Format::OggVorbis => AudioFormat::OggVorbis,
        audrey::Format::Wav => AudioFormat::Wav,
        audrey::Format::CafAlac => AudioFormat::CafAlac,
    };
    Some(AudioDescriptor { format, channel_count: desc.channel_count(), sample_rate: desc.sample_rate() })
}

/// Relies on `audrey::read::Reader::new` to open the container and on
/// `Reader::samples::<i16>`, which yields each interleaved sample converted
/// to `i16`, or an error for a sample that cannot be read. Payloads that
/// are not `probe_allowed` are left out, as for `probe_container`.
#[verifier::external_body]
fn read_container_samples(payload: &[u8]) -> (r: Option<Vec<i16>>)
    requires
        probe_allowed(payload@),
    ensures
        r is Some <==> container_samples(payload@) is Some,
        r is Some ==> r->Some_0@ == container_samples(payload@)->Some_0,
{
    let mut reader = audrey::read::Reader::new(std::io::Cursor::new(payload)).ok()?;
    reader.samples::<i16>().collect::<Result<Vec<i16>, _>>().ok()
}

/// A descriptor matches the engine's profile: a WAV container holding one
/// channel at the trained sample rate.
pub open spec fn valid_profile(d: AudioDescriptor) -> bool {
    &&& d.format == AudioFormat::Wav
    &&& d.channel_count == AUDIO_CHANNELS
    &&& d.sample_rate == AUDIO_SAMPLE_RATE
}

/// The signed 16-bit sample whose little-endian bytes are `lo`, `hi`.
pub open spec fn le_sample(lo: u8, hi: u8) -> i16 {
    let v = lo as int + 256 * hi as int;
    (if v < 0x8000 {
        v
    } else {
        v - 0x10000
    }) as i16
}

/// `b` read as little-endian 16-bit samples; a trailing odd byte is dropped.
pub open spec fn raw_samples(b: Seq<u8>) -> Seq<i16> {
    Seq::new(b.len() / 2, |i: int| le_sample(b[2 * i], b[2 * i + 1]))
}

/// The samples chosen for a payload, given what the container probe found
/// and what the container decode yielded; `None` when the payload is refused.
pub open spec fn decoded_from(
    payload: Seq<u8>,
    probed: Option<AudioDescriptor>,
    container: Option<Seq<i16>>,
) -> Option<Seq<i16>> {
    match probed {
        Some(d) => if valid_profile(d) {
            container
        } else {
            None
        },
        None => Some(raw_samples(payload)),
    }
}

/// The samples chosen for `payload`, or `None` when it is refused. A
/// payload that is not `probe_allowed` is refused without probing.
pub open spec fn decoded_payload(payload: Seq<u8>) -> Option<Seq<i16>> {
    if !probe_allowed(payload) {
        None
    } else {
        decoded_from(payload, container_descriptor(payload), container_samples(payload))
    }
}

/// The outcome of decoding a payload.
#[derive(Debug, Clone)]
pub enum DecodedAudio {
    /// The samples to hand to the engine, at `AUDIO_SAMPLE_RATE`.
    Samples(Vec<i16>),
    /// A container that does not match the engine's profile, or whose
    /// samples could not be read.
    Rejected,
}

impl View for DecodedAudio {
    type V = Option<Seq<i16>>;

    open spec fn view(&self) -> Option<Seq<i16>> {
        match self {
            DecodedAudio::Samples(s) => Some(s@),
            DecodedAudio::Rejected => None,
        }
    }
}

/// The view of an optional sample vector.
pub open spec fn samples_view(s: Option<Vec<i16>>) -> Option<Seq<i16>> {
    match s {
        Some(v) => Some(v@),
        None => None,
    }
}

/// Whether a container descriptor matches the engine's profile.
pub fn ensure_valid_audio(desc: AudioDescriptor) -> (r: bool)
    ensures
        r == valid_profile(desc),
{
    let rv_format = desc.format == AudioFormat::Wav;
    let rv_channels = desc.channel_count == AUDIO_CHANNELS;
    let rv_rate = desc.sample_rate == AUDIO_SAMPLE_RATE;
    rv_format && rv_channels && rv_rate
}

/// Whether `payload` opens with the CAF magic.
pub fn starts_with_caf_magic(payload: &[u8]) -> (r: bool)
    ensures
        r == has_caf_magic(payload@),
{
    if payload.len() < 8 {
        return false;
    }
    let r = payload[0] == 0x63 && payload[1] == 0x61 && payload[2] == 0x66 && payload[3] == 0x66
        && payload[4] == 0x00 && payload[5] == 0x01 && payload[6] == 0x00 && payload[7] == 0x00;
    proof {
        if r {
            assert(payload@.subrange(0, 8) =~= caf_magic());
        } else {
            assert(!(payload@.subrange(0, 8) =~= caf_magic())) by {
                if payload@.subrange(0, 8) == caf_magic() {
                    assert(payload@.subrange(0, 8)[0] == payload@[0]);
                    assert(payload@.subrange(0, 8)[1] == payload@[1]);
                    assert(payload@.subrange(0, 8)[2] == payload@[2]);
                    assert(payload@.subrange(0, 8)[3] == payload@[3]);
                    assert(payload@.subrange(0, 8)[4] == payload@[4]);
                    assert(payload@.subrange(0, 8)[5] == payload@[5]);
                    assert(payload@.subrange(0, 8)[6] == payload@[6]);
                    assert(payload@.subrange(0, 8)[7] == payload@[7]);
                }
            }
        }
    }
    r
}

/// Where the first Ogg capture pattern of `payload` starts, if anywhere.
fn first_ogg_capture(payload: &[u8]) -> (r: Option<usize>)
    ensures
        r matches Some(k) ==> first_ogg_capture_at(payload@, k as int),
        r is None ==> forall|j: int| !#[trigger] ogg_capture_at(payload@, j),
{
    let len: usize = payload.len();
    if len < 4 {
        assert(forall|j: int| !#[trigger] ogg_capture_at(payload@, j));
        return None;
    }
    let mut i: usize = 0;
    while i <= len - 4
        invariant
            len == payload@.len(),
            len >= 4,
            i <= len - 3,
            forall|j: int| 0 <= j < i ==> !#[trigger] ogg_capture_at(payload@, j),
        decreases len - i,
    {
        if payload[i] == 0x4f && payload[i + 1] == 0x67 && payload[i + 2] == 0x67 && payload[i
            + 3] == 0x53 {
            assert(ogg_capture_at(payload@, i as int));
            return Some(i);
        }
        i = i + 1;
    }
    assert(forall|j: int| !#[trigger] ogg_capture_at(payload@, j));
    None
}

/// Whether `payload` holds what the Ogg reader takes for its first page
/// header.
pub fn holds_ogg_page_header(payload: &[u8]) -> (r: bool)
    ensures
        r == has_ogg_page_header(payload@),
{
    match first_ogg_capture(payload) {
        Some(k) => {
            let r = k < OGG_SEARCH_WINDOW && payload.len() >= OGG_PAGE_HEADER_LEN && k
                <= payload.len() - OGG_PAGE_HEADER_LEN && payload[k + 4] == 0;
            proof {
                assert forall|k2: int| #[trigger] first_ogg_capture_at(payload@, k2) implies k2
                    == k as int by {
                    if k2 < k as int {
                        assert(!ogg_capture_at(payload@, k2));
                    } else if k2 > k as int {
                        assert(!ogg_capture_at(payload@, k as int));
                    }
                }
                if r {
                    assert(first_ogg_capture_at(payload@, k as int));
                }
            }
            r
        },
        None => no_ogg_page_header(payload),
    }
}

/// With no capture pattern there is no page header.
fn no_ogg_page_header(payload: &[u8]) -> (r: bool)
    requires
        forall|j: int| !#[trigger] ogg_capture_at(payload@, j),
    ensures
        r == has_ogg_page_header(payload@),
{
    assert(!has_ogg_page_header(payload@)) by {
        assert forall|k: int| !#[trigger] first_ogg_capture_at(payload@, k) by {
            assert(!ogg_capture_at(payload@, k));
        }
    }
    false
}

/// Whether the container probes may be run on `payload`.
pub fn is_probe_allowed(payload: &[u8]) -> (r: bool)
    ensures
        r == probe_allowed(payload@),
{
    if starts_with_caf_magic(payload) || holds_ogg_page_header(payload) {
        accepts_wav(payload)
    } else {
        true
    }
}

/// The signed sample with little-endian bytes `lo`, `hi`.
fn sample_from_bytes(lo: u8, hi: u8) -> (r: i16)
    ensures
        r == le_sample(lo, hi),
{
    if hi < 128 {
        (hi as i16) * 256 + (lo as i16)
    } else {
        ((hi as i16) - 256) * 256 + (lo as i16)
    }
}

/// Reinterprets a byte buffer as little-endian signed 16-bit samples. An
/// odd trailing byte is dropped.
pub fn raw_pcm_samples(payload: &[u8]) -> (r: Vec<i16>)
    ensures
        r@ == raw_samples(payload@),
{
    let len: usize = payload.len();
    let n: usize = len / 2;
    let mut out: Vec<i16> = Vec::with_capacity(n);
    let mut i: usize = 0;
    while i < n
        invariant
            len == payload@.len(),
            n == len / 2,
            i <= n,
            out@.len() == i,
            forall|k: int| 0 <= k < i ==> out@[k] == le_sample(payload@[2 * k], payload@[2 * k + 1]),
        decreases n - i,
    {
        assert(2 * i + 1 < payload@.len());
        let s = sample_from_bytes(payload[2 * i], payload[2 * i + 1]);
        out.push(s);
        i = i + 1;
    }
    assert(out@ =~= raw_samples(payload@));
    out
}

/// Chooses the samples for `payload` from what the container probe found
/// (`probed`) and, for a container of the right profile, what its decode
/// yielded (`container`): those samples for a matching container, a refusal
/// for a container of another profile or one whose samples could not be
/// read, and the raw reinterpretation when there is no container at all.
pub fn decide_decoding(
    payload: &[u8],
    probed: Option<AudioDescriptor>,
    container: Option<Vec<i16>>,
) -> (r: DecodedAudio)
    ensures
        r@ == decoded_from(payload@, probed, samples_view(container)),
{
    match probed {
        Some(d) => if ensure_valid_audio(d) {
            match container {
                Some(s) => DecodedAudio::Samples(s),
                None => DecodedAudio::Rejected,
            }
        } else {
            DecodedAudio::Rejected
        },
        None => DecodedAudio::Samples(raw_pcm_samples(payload)),
    }
}

/// Decodes a payload: a container of the engine's profile gives its
/// samples, any other container is refused without trying the raw
/// reinterpretation, and bytes that hold no container are read as raw
/// little-endian PCM. One departure from that rule keeps decoding free of
/// panics: a payload that hound does not read as WAV and that opens with the
/// CAF magic or holds an Ogg page header (`probe_excluded`) is refused
/// without asking audrey, even where audrey would have found no container.
pub fn decode_audio(payload: &[u8]) -> (r: DecodedAudio)
    ensures
        r@ == decoded_payload(payload@),
{
    if !is_probe_allowed(payload) {
        return DecodedAudio::Rejected;
    }
    let probed = probe_container(payload);
    let container = match probed {
        Some(d) => if ensure_valid_audio(d) {
            read_container_samples(payload)
        } else {
            None
        },
        None => None,
    };
    decide_decoding(payload, probed, container)
}

/// The samples of a warm-up recording, read from its container whatever
/// its profile; `None` when it holds no readable container, or when it is
/// not `probe_allowed`.
pub fn warmup_samples(recording: &[u8]) -> (r: Option<Vec<i16>>)
    ensures
        !probe_allowed(recording@) ==> r is None,
        probe_allowed(recording@) ==> samples_view(r) == container_samples(recording@),
{
    if !is_probe_allowed(recording) {
        return None;
    }
    read_container_samples(recording)
}

/// A container whose channel count or sample rate differs from the
/// engine's profile is refused, and the raw reinterpretation is not tried.
pub proof fn lemma_wrong_profile_refused(payload: Seq<u8>)
    requires
        container_descriptor(payload) is Some,
        container_descriptor(payload)->Some_0.channel_count != AUDIO_CHANNELS
            || container_descriptor(payload)->Some_0.sample_rate != AUDIO_SAMPLE_RATE,
    ensures
        decoded_payload(payload) is None,
{
}

/// A payload of even length in which audrey finds no container, and which
/// neither opens with the CAF magic nor holds an Ogg page header, is read as
/// raw PCM, one sample per pair of bytes.
pub proof fn lemma_headerless_read_raw(payload: Seq<u8>)
    requires
        !probe_excluded(payload),
        container_descriptor(payload) is None,
        payload.len() % 2 == 0,
    ensures
        decoded_payload(payload) == Some(raw_samples(payload)),
        raw_samples(payload).len() * 2 == payload.len(),
        forall|i: int|
            0 <= i < raw_samples(payload).len() ==> #[trigger] raw_samples(payload)[i] == le_sample(
                payload[2 * i],
                payload[2 * i + 1],
            ),
{
}

} // verus!
