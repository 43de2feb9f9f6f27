//! The way of the audio, call by call.

use crate::audio;
use crate::audio::{
    interleave, packet_frames, select_output_config, AudioSession, Capability,
    MediaCodecCapability, OutputConfig, PacketError, SbcInfo, SbcStreamHandler, StreamConfig,
};
use vstd::prelude::*;

verus! {

/// The first form of output in stereo and 16-bit integers is used, at its highest rate; one is
/// found whenever one is offered.
pub proof fn first_usable_output_is_used(
    offered: &[OutputConfig],
    r: Option<(usize, StreamConfig)>,
)
    requires
        call_ensures(select_output_config, (offered,), r),
    ensures
        match r {
            Some((n, config)) => {
                &&& n < offered@.len()
                &&& offered@[n as int].sample_format is I16
                &&& offered@[n as int].channels == 2
                &&& config.channels == 2
                &&& config.sample_rate == offered@[n as int].max_sample_rate
                &&& forall|i: int|
                    0 <= i < n ==> !((#[trigger] offered@[i]).sample_format is I16
                        && offered@[i].channels == 2)
            },
            None => forall|i: int|
                0 <= i < offered@.len() ==> !((#[trigger] offered@[i]).sample_format is I16
                    && offered@[i].channels == 2),
        },
{
}

/// The output is opened in the form that was asked for, silent, with room for one second.
pub proof fn output_has_room_for_a_second(
    config: StreamConfig,
    s: AudioSession,
    told: &StreamConfig,
)
    requires
        0 < config.sample_rate * config.channels <= u32::MAX,
        config.sample_rate * config.channels * 2 <= isize::MAX,
        call_ensures(AudioSession::new, (config,), s),
        call_ensures(AudioSession::config, (&s,), told),
    ensures
        *told == config,
        s.waiting().len() == 0,
        s.capacity() == config.sample_rate * config.channels,
{
}

/// Samples are written behind those that wait, from the first on, as many as there is room for.
pub proof fn samples_are_written_as_room_allows(
    s: &mut AudioSession,
    samples: &[i16],
    count: usize,
)
    requires
        old(s).waiting().len() <= old(s).capacity(),
        call_ensures(AudioSession::write, (s, samples), count),
    ensures
        count <= samples@.len(),
        count + old(s).waiting().len() <= old(s).capacity(),
        count < samples@.len() ==> count + old(s).waiting().len() == old(s).capacity(),
        final(s).waiting() == old(s).waiting() + samples@.take(count as int),
        final(s).capacity() == old(s).capacity(),
{
}

/// The eldest samples are played first, each once, and where there are none there is silence.
pub proof fn samples_are_played_eldest_first(s: &mut AudioSession, data: &mut [i16])
    requires
        old(s).waiting().len() <= old(s).capacity(),
        call_ensures(AudioSession::fill_output, (s, data), ()),
    ensures
        final(data)@.len() == old(data)@.len(),
        forall|i: int|
            0 <= i < old(data)@.len() && i < old(s).waiting().len() ==> #[trigger] final(data)@[i]
                == old(s).waiting()[i],
        forall|i: int|
            old(s).waiting().len() <= i < old(data)@.len() ==> #[trigger] final(data)@[i] == 0,
        final(s).waiting() == (if old(data)@.len() <= old(s).waiting().len() {
            old(s).waiting().skip(old(data)@.len() as int)
        } else {
            Seq::<i16>::empty()
        }),
        final(s).capacity() == old(s).capacity(),
{
    if old(data)@.len() > old(s).waiting().len() {
        assert(final(s).waiting() =~= Seq::<i16>::empty());
    }
}

/// What is written into a fresh output is what comes out of it, in order, and then silence.
pub proof fn what_goes_in_comes_out(
    config: StreamConfig,
    fresh: AudioSession,
    writing: &mut AudioSession,
    samples: &[i16],
    count: usize,
    playing: &mut AudioSession,
    data: &mut [i16],
)
    requires
        0 < config.sample_rate * config.channels <= u32::MAX,
        config.sample_rate * config.channels * 2 <= isize::MAX,
        call_ensures(AudioSession::new, (config,), fresh),
        *old(writing) == fresh,
        call_ensures(AudioSession::write, (writing, samples), count),
        *old(playing) == *final(writing),
        call_ensures(AudioSession::fill_output, (playing, data), ()),
    ensures
        samples@.len() <= config.sample_rate * config.channels ==> count == samples@.len(),
        samples@.len() > config.sample_rate * config.channels ==> count == config.sample_rate
            * config.channels,
        final(data)@.len() == old(data)@.len(),
        forall|i: int|
            0 <= i < old(data)@.len() ==> #[trigger] final(data)@[i] == (if i < count {
                samples@[i]
            } else {
                0i16
            }),
{
}

/// The first entry for SBC settles the stream, if it leaves nothing open: the frequency is its
/// own, and a frame is its subbands times its blocks.
pub proof fn first_sbc_entry_settles_the_stream(
    capabilities: &[Capability],
    n: int,
    info: SbcInfo,
    r: Option<(u32, u32)>,
)
    requires
        0 <= n < capabilities@.len(),
        capabilities@[n] == Capability::MediaCodec(MediaCodecCapability::Sbc(info)),
        forall|i: int|
            0 <= i < n ==> !((#[trigger] capabilities@[i]) matches Capability::MediaCodec(codec)
                && codec is Sbc),
        info.sampling_frequency is Some && info.subbands is Some && info.block_length is Some
            ==> info.subbands->0 * info.block_length->0 <= u32::MAX,
        call_ensures(SbcStreamHandler::parse_capabilities, (capabilities,), r),
    ensures
        match (info.sampling_frequency, info.subbands, info.block_length) {
            (Some(frequency), Some(subbands), Some(blocks)) => {
                &&& r matches Some(settled)
                &&& settled.0 == frequency
                &&& settled.1 == subbands * blocks
            },
            _ => r is None,
        },
{
    first_sbc(capabilities@, n, info);
}

/// Without an entry for SBC nothing is settled.
pub proof fn no_sbc_entry_settles_nothing(capabilities: &[Capability], r: Option<(u32, u32)>)
    requires
        forall|i: int|
            0 <= i < capabilities@.len() ==> !((
            #[trigger] capabilities@[i]) matches Capability::MediaCodec(codec) && codec is Sbc),
        call_ensures(SbcStreamHandler::parse_capabilities, (capabilities,), r),
    ensures
        r is None,
{
    no_sbc(capabilities@);
}

proof fn first_sbc(capabilities: Seq<Capability>, n: int, info: SbcInfo)
    requires
        0 <= n < capabilities.len(),
        capabilities[n] == Capability::MediaCodec(MediaCodecCapability::Sbc(info)),
        forall|i: int|
            0 <= i < n ==> !((#[trigger] capabilities[i]) matches Capability::MediaCodec(codec)
                && codec is Sbc),
    ensures
        audio::sbc_of(capabilities) == Some(info),
    decreases capabilities.len(),
{
    if n > 0 {
        let rest = capabilities.drop_first();
        assert(forall|i: int| 0 <= i < rest.len() ==> #[trigger] rest[i] == capabilities[i + 1]);
        assert(!(capabilities[0] matches Capability::MediaCodec(codec) && codec is Sbc));
        first_sbc(rest, n - 1, info);
    }
}

proof fn no_sbc(capabilities: Seq<Capability>)
    requires
        forall|i: int|
            0 <= i < capabilities.len() ==> !((
            #[trigger] capabilities[i]) matches Capability::MediaCodec(codec) && codec is Sbc),
    ensures
        audio::sbc_of(capabilities) is None,
    decreases capabilities.len(),
{
    if capabilities.len() > 0 {
        let rest = capabilities.drop_first();
        assert(forall|i: int| 0 <= i < rest.len() ==> #[trigger] rest[i] == capabilities[i + 1]);
        assert(!(capabilities[0] matches Capability::MediaCodec(codec) && codec is Sbc));
        no_sbc(rest);
    }
}

/// A packet is its header and its frames: they are all that follows the first byte, and there are
/// none only without a header, or where its highest bit marks a fragment.
pub proof fn packets_hold_frames(data: &[u8], frames: Result<&[u8], PacketError>)
    requires
        call_ensures(packet_frames, (data,), frames),
    ensures
        match frames {
            Err(PacketError::Empty) => data@.len() == 0,
            Err(PacketError::Fragmented) => data@.len() > 0 && data@[0] >= 128,
            Ok(frames) => data@.len() > 0 && data@[0] < 128 && data@ == seq![data@[0]] + frames@,
        },
{
    if let Ok(rest) = frames {
        assert(data@ =~= seq![data@[0]] + rest@);
    }
}

/// Left and right take turns, the left first, as far as both reach and were asked for.
pub proof fn left_and_right_take_turns(
    left: &[i16],
    right: &[i16],
    len: usize,
    samples: Vec<i16>,
    i: int,
)
    requires
        call_ensures(interleave, (left, right, len), samples),
    ensures
        samples@.len() % 2 == 0,
        samples@.len() <= 2 * len,
        samples@.len() <= 2 * left@.len(),
        samples@.len() <= 2 * right@.len(),
        samples@.len() == 2 * len || samples@.len() == 2 * left@.len() || samples@.len() == 2
            * right@.len(),
        0 <= i && 2 * i < samples@.len() ==> samples@[2 * i] == left@[i] && samples@[2 * i + 1]
            == right@[i],
{
}

/// A stream is played in the form that its codec and the output settle: from the rate and the
/// frames of the codec to the rate of the output, in stereo.
pub proof fn stream_is_resampled_to_the_output(
    capabilities: &[Capability],
    n: int,
    info: SbcInfo,
    config: StreamConfig,
    h: SbcStreamHandler,
)
    requires
        0 <= n < capabilities@.len(),
        capabilities@[n] == Capability::MediaCodec(MediaCodecCapability::Sbc(info)),
        forall|i: int|
            0 <= i < n ==> !((#[trigger] capabilities@[i]) matches Capability::MediaCodec(codec)
                && codec is Sbc),
        info.sampling_frequency is Some && info.subbands is Some && info.block_length is Some,
        info.subbands->0 * info.block_length->0 <= u32::MAX,
        0 < config.sample_rate * config.channels <= u32::MAX,
        config.sample_rate * config.channels * 2 <= isize::MAX,
        call_ensures(SbcStreamHandler::new, (capabilities, config), h),
    ensures
        h.plan.input_rate == info.sampling_frequency->0,
        h.plan.output_rate == config.sample_rate,
        h.plan.chunk_size == info.subbands->0 * info.block_length->0,
        h.plan.sub_chunks == 1,
        h.plan.channels == 2,
        h.audio_session.waiting().len() == 0,
        h.audio_session.capacity() == config.sample_rate * config.channels,
        h.audio_session.spec_config() == config,
{
    first_sbc(capabilities@, n, info);
}

/// A frame is played behind what waits, left and right in turn, as far as there is room: just as
/// the samples in turn would be written.
pub proof fn frames_are_written_in_turn(
    h: &mut SbcStreamHandler,
    left: &[i16],
    right: &[i16],
    len: usize,
    samples: Vec<i16>,
)
    requires
        old(h).audio_session.waiting().len() <= old(h).audio_session.capacity(),
        call_ensures(SbcStreamHandler::process_frame, (h, left, right, len), ()),
        call_ensures(interleave, (left, right, len), samples),
    ensures
        ({
            let waiting = old(h).audio_session.waiting();
            let room = old(h).audio_session.capacity() - waiting.len();
            &&& final(h).audio_session.waiting() == waiting + samples@.take(
                if samples@.len() <= room {
                    samples@.len() as int
                } else {
                    room
                },
            )
            &&& final(h).audio_session.capacity() == old(h).audio_session.capacity()
            &&& final(h).audio_session.spec_config() == old(h).audio_session.spec_config()
            &&& final(h).plan == old(h).plan
        }),
{
}

}
