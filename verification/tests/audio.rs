use bluefang_player::audio::{
    interleave, packet_frames, select_output_config, AudioSession, Capability,
    MediaCodecCapability, OutputConfig, PacketError, SampleFormat, SbcInfo, SbcStreamHandler,
    StreamConfig,
};

fn sbc(frequency: Option<u32>, subbands: Option<u32>, blocks: Option<u32>) -> Capability {
    Capability::MediaCodec(MediaCodecCapability::Sbc(SbcInfo {
        sampling_frequency: frequency,
        subbands,
        block_length: blocks,
    }))
}

#[test]
fn capabilities_give_frequency_and_frame_size() {
    let caps = [Capability::MediaTransport, sbc(Some(44_100), Some(8), Some(16))];
    assert_eq!(SbcStreamHandler::parse_capabilities(&caps), Some((44_100, 128)));
}

#[test]
fn capabilities_without_a_settled_codec_give_nothing() {
    assert_eq!(SbcStreamHandler::parse_capabilities(&[]), None);
    let other = [
        Capability::MediaTransport,
        Capability::Other,
        Capability::MediaCodec(MediaCodecCapability::Other),
    ];
    assert_eq!(SbcStreamHandler::parse_capabilities(&other), None);
    assert_eq!(SbcStreamHandler::parse_capabilities(&[sbc(None, Some(8), Some(16))]), None);
    assert_eq!(SbcStreamHandler::parse_capabilities(&[sbc(Some(1), None, Some(16))]), None);
    assert_eq!(SbcStreamHandler::parse_capabilities(&[sbc(Some(1), Some(8), None)]), None);
}

#[test]
fn only_the_first_codec_counts() {
    let caps = [sbc(None, None, None), sbc(Some(48_000), Some(4), Some(4))];
    assert_eq!(SbcStreamHandler::parse_capabilities(&caps), None);
}

#[test]
fn packets() {
    assert_eq!(packet_frames(&[]), Err(PacketError::Empty));
    assert_eq!(packet_frames(&[0x80, 1, 2]), Err(PacketError::Fragmented));
    assert_eq!(packet_frames(&[0xff]), Err(PacketError::Fragmented));
    assert_eq!(packet_frames(&[0x7f, 1, 2]), Ok(&[1u8, 2][..]));
    assert_eq!(packet_frames(&[1]), Ok(&[][..]));
}

#[test]
fn channels_are_put_in_turn() {
    assert_eq!(interleave(&[1, 2, 3], &[10, 20, 30], 3), vec![1, 10, 2, 20, 3, 30]);
    assert_eq!(interleave(&[1, 2, 3], &[10, 20, 30], 2), vec![1, 10, 2, 20]);
    assert_eq!(interleave(&[1, 2, 3], &[10], 3), vec![1, 10]);
    assert_eq!(interleave(&[], &[], 8), Vec::<i16>::new());
}

fn offer(sample_format: SampleFormat, channels: u16, max_sample_rate: u32) -> OutputConfig {
    OutputConfig { sample_format, channels, max_sample_rate }
}

#[test]
fn first_stereo_output_is_selected() {
    let offered = [
        offer(SampleFormat::Other, 2, 192_000),
        offer(SampleFormat::I16, 1, 96_000),
        offer(SampleFormat::I16, 2, 48_000),
        offer(SampleFormat::I16, 2, 96_000),
    ];
    assert_eq!(
        select_output_config(&offered),
        Some((2, StreamConfig { channels: 2, sample_rate: 48_000 }))
    );
    assert_eq!(select_output_config(&offered[..2]), None);
    assert_eq!(select_output_config(&[]), None);
}

#[test]
fn written_samples_are_played_in_order_and_then_silence() {
    let mut session = AudioSession::new(StreamConfig { channels: 2, sample_rate: 4 });
    assert_eq!(session.config().sample_rate, 4);
    assert_eq!(session.write(&[1, 2, 3]), 3);
    assert_eq!(session.write(&[4]), 1);
    let mut data = [7i16; 6];
    session.fill_output(&mut data);
    assert_eq!(data, [1, 2, 3, 4, 0, 0]);
    session.fill_output(&mut data);
    assert_eq!(data, [0; 6]);
}

#[test]
fn samples_beyond_the_room_are_dropped() {
    let mut session = AudioSession::new(StreamConfig { channels: 2, sample_rate: 2 });
    assert_eq!(session.write(&[1, 2, 3, 4, 5, 6]), 4);
    assert_eq!(session.write(&[9]), 0);
    let mut data = [7i16; 3];
    session.fill_output(&mut data);
    assert_eq!(data, [1, 2, 3]);
    assert_eq!(session.write(&[8, 9]), 2);
    let mut rest = [7i16; 4];
    session.fill_output(&mut rest);
    assert_eq!(rest, [4, 8, 9, 0]);
}

#[test]
fn playing_in_two_goes_is_as_playing_in_one() {
    let config = StreamConfig { channels: 2, sample_rate: 8 };
    let mut once = AudioSession::new(config);
    let mut twice = AudioSession::new(config);
    for n in 0..10 {
        once.write(&[n]);
    }
    twice.write(&[0, 1, 2, 3]);
    twice.write(&[4, 5, 6, 7, 8, 9]);
    let mut whole = [1i16; 12];
    once.fill_output(&mut whole);
    let mut first = [1i16; 5];
    let mut second = [1i16; 7];
    twice.fill_output(&mut first);
    twice.fill_output(&mut second);
    assert_eq!(whole[..5], first);
    assert_eq!(whole[5..], second);
}

#[test]
fn a_stream_is_played() {
    let caps = [sbc(Some(44_100), Some(8), Some(16))];
    let config = StreamConfig { channels: 2, sample_rate: 48_000 };
    let mut handler = SbcStreamHandler::new(&caps, config);
    assert_eq!(handler.plan.input_rate, 44_100);
    assert_eq!(handler.plan.output_rate, 48_000);
    assert_eq!(handler.plan.chunk_size, 128);
    assert_eq!(handler.plan.sub_chunks, 1);
    assert_eq!(handler.plan.channels, 2);
    handler.process_frame(&[1, 2, 3], &[-1, -2, -3], 2);
    let mut data = [9i16; 5];
    handler.audio_session.fill_output(&mut data);
    assert_eq!(data, [1, -1, 2, -2, 0]);
}
