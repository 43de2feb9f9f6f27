//! The way of the audio from the packets of a link to the samples that are played.

use ringbuf::traits::{Consumer, Producer};
use ringbuf::HeapRb;
use vstd::prelude::*;

verus! {

/// The SBC codec as two devices agreed on it. A property on which they left a choice has no value.
#[derive(Clone, Copy, Debug, PartialEq, Eq, Structural)]
pub struct SbcInfo {
    pub sampling_frequency: Option<u32>,
    pub subbands: Option<u32>,
    pub block_length: Option<u32>,
}

/// A codec for audio.
#[derive(Clone, Copy, Debug, PartialEq, Eq, Structural)]
pub enum MediaCodecCapability {
    Sbc(SbcInfo),
    Other,
}

/// What two devices agreed on for a stream.
#[derive(Clone, Copy, Debug, PartialEq, Eq, Structural)]
pub enum Capability {
    MediaTransport,
    MediaCodec(MediaCodecCapability),
    Other,
}

/// The kind of number that a sample is.
#[derive(Clone, Copy, Debug, PartialEq, Eq, Structural)]
pub enum SampleFormat {
    I16,
    Other,
}

/// A form of output that the sound device offers.
#[derive(Clone, Copy, Debug, PartialEq, Eq, Structural)]
pub struct OutputConfig {
    pub sample_format: SampleFormat,
    pub channels: u16,
    pub max_sample_rate: u32,
}

/// The form of output that is used.
#[derive(Clone, Copy, Debug, PartialEq, Eq, Structural)]
pub struct StreamConfig {
    pub channels: u16,
    pub sample_rate: u32,
}

/// Whether the player can use a form of output: stereo, in 16-bit integers.
pub open spec fn is_usable(config: OutputConfig) -> bool {
    config.sample_format is I16 && config.channels == 2
}

/// Picks the first form of output that the player can use, at its highest rate, and tells its
/// place among those offered.
pub fn select_output_config(offered: &[OutputConfig]) -> (r: Option<(usize, StreamConfig)>)
    ensures
        r is None <==> forall|i: int| 0 <= i < offered.len() ==> !is_usable(#[trigger] offered@[i]),
        r matches Some((n, config)) ==> {
            &&& n < offered.len()
            &&& is_usable(offered@[n as int])
            &&& forall|i: int| 0 <= i < n ==> !is_usable(#[trigger] offered@[i])
            &&& config == (StreamConfig {
                channels: 2,
                sample_rate: offered@[n as int].max_sample_rate,
            })
        },
{
    let mut n: usize = 0;
    while n < offered.len()
        invariant
            n <= offered.len(),
            forall|i: int| 0 <= i < n ==> !is_usable(#[trigger] offered@[i]),
        decreases offered.len() - n,
    {
        let config = offered[n];
        if config.sample_format == SampleFormat::I16 && config.channels == 2 {
            return Some(
                (
                    n,
                    StreamConfig {
                        channels: config.channels,
                        sample_rate: config.max_sample_rate,
                    },
                ),
            );
        }
        n = n + 1;
    }
    None
}

/// The ring buffer of the `ringbuf` crate, for samples.
#[verifier::external_body]
pub struct SampleRing {
    inner: HeapRb<i16>,
}

/// The samples that wait in the ring buffer, the eldest first.
pub uninterp spec fn ring_contents(ring: SampleRing) -> Seq<i16>;

/// The number of samples that the ring buffer was made for.
pub uninterp spec fn ring_capacity(ring: SampleRing) -> nat;

/// `ringbuf::HeapRb::new`: an empty ring buffer of the given capacity, which must not be zero.
#[verifier::external_body]
fn ring_new(capacity: usize) -> (ring: SampleRing)
    requires
        0 < capacity,
        capacity * 2 <= isize::MAX,
    ensures
        ring_contents(ring) == Seq::<i16>::empty(),
        ring_capacity(ring) == capacity,
{
    SampleRing { inner: HeapRb::new(capacity) }
}

/// `ringbuf::traits::Producer::push_slice`: appends as many samples, from the first on, as there
/// is room for, and tells how many.
#[verifier::external_body]
fn ring_push(ring: &mut SampleRing, samples: &[i16]) -> (count: usize)
    requires
        ring_contents(*old(ring)).len() <= ring_capacity(*old(ring)),
    ensures
        count == room_for(
            ring_capacity(*old(ring)) - ring_contents(*old(ring)).len(),
            samples.len() as int,
        ),
        ring_contents(*final(ring)) == ring_contents(*old(ring)) + samples@.take(count as int),
        ring_capacity(*final(ring)) == ring_capacity(*old(ring)),
{
    ring.inner.push_slice(samples)
}

/// `ringbuf::traits::Consumer::pop_slice`: moves the eldest samples to the front of the slice, as
/// many as there are and fit, and tells how many; the rest of the slice is left alone.
#[verifier::external_body]
fn ring_pop(ring: &mut SampleRing, samples: &mut [i16]) -> (count: usize)
    ensures
        count == room_for(old(samples).len() as int, ring_contents(*old(ring)).len() as int),
        final(samples)@ == ring_contents(*old(ring)).take(count as int) + old(samples)@.skip(
            count as int,
        ),
        ring_contents(*final(ring)) == ring_contents(*old(ring)).skip(count as int),
        ring_capacity(*final(ring)) == ring_capacity(*old(ring)),
{
    ring.inner.pop_slice(samples)
}

/// How many of a number of samples there is room for.
pub open spec fn room_for(room: int, samples: int) -> int {
    if samples <= room {
        samples
    } else {
        room
    }
}

/// The samples that wait after more were written: what there is no room for is dropped.
pub open spec fn written(waiting: Seq<i16>, capacity: nat, samples: Seq<i16>) -> Seq<i16> {
    waiting + samples.take(room_for(capacity - waiting.len(), samples.len() as int))
}

/// The samples that are played: those that wait, the eldest first, and silence after them.
pub open spec fn played(waiting: Seq<i16>, count: nat) -> Seq<i16> {
    Seq::new(
        count,
        |i: int|
            if i < waiting.len() {
                waiting[i]
            } else {
                0i16
            },
    )
}

/// The samples that wait after some were played.
pub open spec fn unplayed(waiting: Seq<i16>, count: nat) -> Seq<i16> {
    waiting.skip(room_for(count as int, waiting.len() as int))
}

/// The output of sound: its form, and the samples that wait to be played.
pub struct AudioSession {
    config: StreamConfig,
    buffer: SampleRing,
}

impl AudioSession {
    pub closed spec fn spec_config(self) -> StreamConfig {
        self.config
    }

    pub closed spec fn waiting(self) -> Seq<i16> {
        ring_contents(self.buffer)
    }

    pub closed spec fn capacity(self) -> nat {
        ring_capacity(self.buffer)
    }

    /// No more samples wait than there is room for.
    pub open spec fn well_formed(self) -> bool {
        self.waiting().len() <= self.capacity()
    }

    /// Opens the output in a given form, with room for one second of sound.
    pub fn new(config: StreamConfig) -> (s: Self)
        requires
            0 < config.sample_rate * config.channels <= u32::MAX,
            config.sample_rate * config.channels * 2 <= isize::MAX,
        ensures
            s.spec_config() == config,
            s.waiting() == Seq::<i16>::empty(),
            s.capacity() == config.sample_rate * config.channels,
            s.well_formed(),
    {
        let max_buffer_size: u32 = config.sample_rate * config.channels as u32;
        AudioSession { config, buffer: ring_new(max_buffer_size as usize) }
    }

    pub fn config(&self) -> (config: &StreamConfig)
        ensures
            *config == self.spec_config(),
    {
        &self.config
    }

    /// Writes samples to be played, and tells how many there was room for.
    pub fn write(&mut self, samples: &[i16]) -> (count: usize)
        requires
            old(self).well_formed(),
        ensures
            count == room_for(
                old(self).capacity() - old(self).waiting().len(),
                samples.len() as int,
            ),
            final(self).waiting() == written(
                old(self).waiting(),
                old(self).capacity(),
                samples@,
            ),
            final(self).capacity() == old(self).capacity(),
            final(self).spec_config() == old(self).spec_config(),
            final(self).well_formed(),
    {
        ring_push(&mut self.buffer, samples)
    }

    /// Gives the samples to play next; where too few wait, silence.
    pub fn fill_output(&mut self, data: &mut [i16])
        requires
            old(self).well_formed(),
        ensures
            final(data)@ == played(old(self).waiting(), old(data)@.len()),
            final(self).waiting() == unplayed(old(self).waiting(), old(data)@.len()),
            final(self).capacity() == old(self).capacity(),
            final(self).spec_config() == old(self).spec_config(),
            final(self).well_formed(),
    {
        let len = ring_pop(&mut self.buffer, data);
        let ghost waiting = old(self).waiting();
        let mut i: usize = len;
        while i < data.len()
            invariant
                len <= i <= data.len(),
                len == room_for(data.len() as int, waiting.len() as int),
                data.len() == old(data).len(),
                forall|j: int|
                    0 <= j < i ==> #[trigger] data@[j] == played(waiting, data@.len())[j],
            decreases data.len() - i,
        {
            data[i] = 0;
            i = i + 1;
        }
        assert(data@ =~= played(waiting, data@.len()));
    }
}

/// The first agreement on the SBC codec.
pub open spec fn sbc_of(capabilities: Seq<Capability>) -> Option<SbcInfo>
    decreases capabilities.len(),
{
    if capabilities.len() == 0 {
        None
    } else {
        match capabilities[0] {
            Capability::MediaCodec(MediaCodecCapability::Sbc(info)) => Some(info),
            _ => sbc_of(capabilities.drop_first()),
        }
    }
}

impl SbcInfo {
    /// Whether nothing is left open.
    pub open spec fn is_settled(self) -> bool {
        self.sampling_frequency is Some && self.subbands is Some && self.block_length is Some
    }

    /// The samples of a frame, for each channel.
    pub open spec fn frame_size(self) -> int {
        self.subbands->0 * self.block_length->0
    }
}

/// Whether two devices settled on a form of the SBC codec.
pub open spec fn settles_sbc(capabilities: Seq<Capability>) -> bool {
    sbc_of(capabilities) matches Some(info) && info.is_settled()
}

/// Whether the frames of the codec are of a size that can be told.
pub open spec fn has_sane_frames(capabilities: Seq<Capability>) -> bool {
    settles_sbc(capabilities) ==> sbc_of(capabilities)->0.frame_size() <= u32::MAX
}

/// Why a packet cannot be played.
#[derive(Clone, Copy, Debug, PartialEq, Eq, Structural)]
pub enum PacketError {
    /// There is no header.
    Empty,
    /// The packet is a fragment of a frame.
    Fragmented,
}

/// The frames of a packet: what follows its header, of one byte, whose highest bit marks a
/// fragment.
pub fn packet_frames(data: &[u8]) -> (frames: Result<&[u8], PacketError>)
    ensures
        match frames {
            Err(PacketError::Empty) => data.len() == 0,
            Err(PacketError::Fragmented) => data.len() > 0 && data@[0] >= 0x80,
            Ok(frames) => data.len() > 0 && data@[0] < 0x80 && frames@ == data@.skip(1),
        },
{
    if data.len() == 0 {
        return Err(PacketError::Empty);
    }
    let header: u8 = data[0];
    assert(header & 0x80 == 0 <==> header < 0x80) by (bit_vector);
    if header & 0x80 != 0 {
        return Err(PacketError::Fragmented);
    }
    let frames = vstd::slice::slice_subrange(data, 1, data.len());
    assert(frames@ =~= data@.skip(1));
    Ok(frames)
}

/// Two channels in turn, over so many samples as are asked for and there are in both.
pub open spec fn interleaved(left: Seq<i16>, right: Seq<i16>, len: nat) -> Seq<i16> {
    let n = room_for(len as int, room_for(left.len() as int, right.len() as int));
    Seq::new(
        (2 * n) as nat,
        |i: int|
            if i % 2 == 0 {
                left[i / 2]
            } else {
                right[i / 2]
            },
    )
}

/// Puts the samples of two channels in turn.
pub fn interleave(left: &[i16], right: &[i16], len: usize) -> (samples: Vec<i16>)
    ensures
        samples@ == interleaved(left@, right@, len as nat),
{
    let mut samples: Vec<i16> = Vec::new();
    let mut i: usize = 0;
    while i < len && i < left.len() && i < right.len()
        invariant
            i <= len,
            i <= left.len(),
            i <= right.len(),
            samples@ == interleaved(left@, right@, i as nat),
        decreases len - i,
    {
        samples.push(left[i]);
        samples.push(right[i]);
        i = i + 1;
        assert(samples@ =~= interleaved(left@, right@, i as nat));
    }
    assert(samples@ =~= interleaved(left@, right@, len as nat));
    samples
}

/// What the resampler is made for.
#[derive(Clone, Copy, Debug, PartialEq, Eq, Structural)]
pub struct ResamplerPlan {
    pub input_rate: u32,
    pub output_rate: u32,
    /// The samples that go in at a time, for each channel.
    pub chunk_size: u32,
    pub sub_chunks: u32,
    pub channels: u32,
}

/// The player of an SBC stream.
pub struct SbcStreamHandler {
    pub plan: ResamplerPlan,
    pub audio_session: AudioSession,
}

impl SbcStreamHandler {
    pub open spec fn well_formed(self) -> bool {
        self.audio_session.well_formed()
    }

    /// The frequency that two devices settled on, and the samples of a frame.
    pub fn parse_capabilities(capabilities: &[Capability]) -> (r: Option<(u32, u32)>)
        requires
            has_sane_frames(capabilities@),
        ensures
            r is Some <==> settles_sbc(capabilities@),
            r matches Some((frequency, frame_size)) ==> {
                let info = sbc_of(capabilities@)->0;
                &&& frequency == info.sampling_frequency->0
                &&& frame_size == info.frame_size()
            },
    {
        let mut i: usize = 0;
        assert(capabilities@.skip(0) =~= capabilities@);
        while i < capabilities.len()
            invariant
                i <= capabilities.len(),
                has_sane_frames(capabilities@),
                sbc_of(capabilities@.skip(i as int)) == sbc_of(capabilities@),
            decreases capabilities.len() - i,
        {
            assert(capabilities@.skip(i as int).drop_first() =~= capabilities@.skip(i + 1));
            if let Capability::MediaCodec(MediaCodecCapability::Sbc(info)) = capabilities[i] {
                assert(sbc_of(capabilities@) == Some(info));
                return match (info.sampling_frequency, info.subbands, info.block_length) {
                    (Some(frequency), Some(subbands), Some(block_length)) => Some(
                        (frequency, subbands * block_length),
                    ),
                    _ => None,
                };
            }
            i = i + 1;
        }
        None
    }

    /// Begins to play a stream, whose codec must be settled, in a given form of output.
    pub fn new(capabilities: &[Capability], config: StreamConfig) -> (h: Self)
        requires
            settles_sbc(capabilities@),
            has_sane_frames(capabilities@),
            0 < config.sample_rate * config.channels <= u32::MAX,
            config.sample_rate * config.channels * 2 <= isize::MAX,
        ensures
            h.well_formed(),
            h.plan == (ResamplerPlan {
                input_rate: sbc_of(capabilities@)->0.sampling_frequency->0,
                output_rate: config.sample_rate,
                chunk_size: sbc_of(capabilities@)->0.frame_size() as u32,
                sub_chunks: 1,
                channels: 2,
            }),
            h.audio_session.spec_config() == config,
            h.audio_session.waiting() == Seq::<i16>::empty(),
            h.audio_session.capacity() == config.sample_rate * config.channels,
    {
        let (source_frequency, input_size) = SbcStreamHandler::parse_capabilities(
            capabilities,
        ).unwrap();
        let audio_session = AudioSession::new(config);
        SbcStreamHandler {
            plan: ResamplerPlan {
                input_rate: source_frequency,
                output_rate: audio_session.config().sample_rate,
                chunk_size: input_size,
                sub_chunks: 1,
                channels: 2,
            },
            audio_session,
        }
    }

    /// Takes the samples of a frame, resampled and at the volume, to be played.
    pub fn process_frame(&mut self, left: &[i16], right: &[i16], len: usize)
        requires
            old(self).well_formed(),
        ensures
            final(self).audio_session.waiting() == written(
                old(self).audio_session.waiting(),
                old(self).audio_session.capacity(),
                interleaved(left@, right@, len as nat),
            ),
            final(self).audio_session.capacity() == old(self).audio_session.capacity(),
            final(self).audio_session.spec_config() == old(self).audio_session.spec_config(),
            final(self).plan == old(self).plan,
            final(self).well_formed(),
    {
        let samples = interleave(left, right, len);
        self.audio_session.write(samples.as_slice());
    }
}

/// Both channels can be told from the samples put in turn, as far as both reach and were asked
/// for.
pub proof fn interleaving_keeps_the_channels(left: Seq<i16>, right: Seq<i16>, len: nat)
    ensures
        ({
            let n = room_for(len as int, room_for(left.len() as int, right.len() as int));
            let samples = interleaved(left, right, len);
            &&& samples.len() == 2 * n
            &&& forall|i: int| 0 <= i < n ==> samples[2 * i] == #[trigger] left[i]
            &&& forall|i: int| 0 <= i < n ==> samples[2 * i + 1] == #[trigger] right[i]
        }),
{
}

/// What is written in two goes is as if it were written in one.
pub proof fn writing_adds_up(waiting: Seq<i16>, capacity: nat, a: Seq<i16>, b: Seq<i16>)
    requires
        waiting.len() <= capacity,
    ensures
        written(written(waiting, capacity, a), capacity, b) == written(waiting, capacity, a + b),
        written(waiting, capacity, a).len() <= capacity,
{
    assert(written(written(waiting, capacity, a), capacity, b) =~= written(
        waiting,
        capacity,
        a + b,
    ));
}

/// What is played in two goes is as if it were played in one.
pub proof fn playing_adds_up(waiting: Seq<i16>, a: nat, b: nat)
    ensures
        played(waiting, a) + played(unplayed(waiting, a), b) == played(waiting, a + b),
        unplayed(unplayed(waiting, a), b) == unplayed(waiting, a + b),
{
    assert(played(waiting, a) + played(unplayed(waiting, a), b) =~= played(waiting, a + b));
    assert(unplayed(unplayed(waiting, a), b) =~= unplayed(waiting, a + b));
}

/// What is written is played, in order and once, after what waited before and before any silence,
/// as long as there is room for it all.
pub proof fn what_is_written_is_played(
    waiting: Seq<i16>,
    capacity: nat,
    samples: Seq<i16>,
    count: nat,
)
    requires
        waiting.len() + samples.len() <= capacity,
    ensures
        played(written(waiting, capacity, samples), count) == played(waiting + samples, count),
        unplayed(written(waiting, capacity, samples), count) == unplayed(waiting + samples, count),
        count >= waiting.len() + samples.len() ==> {
            &&& played(waiting + samples, count) == waiting + samples + Seq::new(
                (count - waiting.len() - samples.len()) as nat,
                |i: int| 0i16,
            )
            &&& unplayed(waiting + samples, count) == Seq::<i16>::empty()
        },
{
    assert(written(waiting, capacity, samples) =~= waiting + samples);
    if count >= waiting.len() + samples.len() {
        assert(played(waiting + samples, count) =~= waiting + samples + Seq::new(
            (count - waiting.len() - samples.len()) as nat,
            |i: int| 0i16,
        ));
    }
}

}
