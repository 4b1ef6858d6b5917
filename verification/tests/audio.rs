use discord_next::gateway::GatewayCommand;
use discord_next::ids::{GuildId, Snowflake};
use discord_next::net::IpAddress;
use discord_next::voice::audio::{
    frame_samples, AudioRunner, FrameBody, ENCRYPTION_HEADROOM, FRAME_MILLIS, MAX_AUDIO_LEN,
    MAX_SILENT_FRAMES, PACKET_LEN, SAMPLE_COUNT, TRAILING_PAD_SECS,
};
use discord_next::voice::connection::VoiceSession;
use discord_next::voice::source::{ffmpeg_args, pcm_samples, Fill, FillStep, ReadOutcome};
use discord_next::voice::udp::{RTP_HEADER_LEN, SAMPLE_RATE};
use discord_next::voice::VoiceCommand;

fn session(ssrc: u32) -> VoiceSession {
    VoiceSession {
        guild_id: GuildId(Snowflake(5)),
        ssrc,
        ip: IpAddress::V4(192, 0, 2, 7),
        port: 5000,
        secret_key: [7u8; 32],
        heartbeat_interval: 30000,
    }
}

#[test]
fn frame_constants() {
    assert_eq!(SAMPLE_RATE, 48000);
    assert_eq!(SAMPLE_COUNT, 960);
    assert_eq!(FRAME_MILLIS, 20);
    assert_eq!(SAMPLE_RATE as u64 * FRAME_MILLIS / 1000, SAMPLE_COUNT as u64);
    assert_eq!(frame_samples(false), 960);
    assert_eq!(frame_samples(true), 1920);
    assert_eq!(
        MAX_AUDIO_LEN,
        PACKET_LEN - RTP_HEADER_LEN - ENCRYPTION_HEADROOM
    );
    assert_eq!(MAX_SILENT_FRAMES, 5);
    assert_eq!(TRAILING_PAD_SECS, 5);
}

#[test]
fn voice_send() {
    let mut runner = AudioRunner::new(&session(1));
    assert_eq!((runner.seq_num, runner.timestamp), (0, 0));
    let plan = runner.next_frame(960);
    assert_eq!(
        plan.header,
        [0x80, 0x78, 0x00, 0x00, 0x00, 0x00, 0x00, 0x00, 0x00, 0x00, 0x00, 0x01]
    );
    assert_eq!(&plan.nonce[..12], &plan.header[..]);
    assert_eq!(&plan.nonce[12..], &[0u8; 12]);
    assert!(matches!(plan.body, FrameBody::Encoded));
    let datagram = AudioRunner::datagram(&plan, &[0xAA; 20]);
    assert_eq!(&datagram[..12], &plan.header[..]);
    assert_eq!(&datagram[12..], &[0xAA; 20]);
}

#[test]
fn packets_count_frames_and_samples() {
    let mut runner = AudioRunner::new(&session(0x0102_0304));
    for k in 0..5u32 {
        let plan = runner.next_frame(960);
        let seq = u16::from_be_bytes([plan.header[2], plan.header[3]]);
        let timestamp = u32::from_be_bytes([
            plan.header[4],
            plan.header[5],
            plan.header[6],
            plan.header[7],
        ]);
        assert_eq!(seq as u32, k);
        assert_eq!(timestamp, 960 * k);
        assert_eq!(&plan.header[8..], &[1, 2, 3, 4]);
        assert_eq!(&plan.header[..2], &[0x80, 0x78]);
    }
    assert_eq!((runner.seq_num, runner.timestamp), (5, 4800));
}

#[test]
fn sequence_number_and_timestamp_wrap() {
    let mut runner = AudioRunner::new(&session(1));
    runner.seq_num = u16::MAX;
    runner.timestamp = u32::MAX - 100;
    let plan = runner.next_frame(960);
    assert_eq!(&plan.header[2..4], &[0xFF, 0xFF]);
    assert_eq!((runner.seq_num, runner.timestamp), (0, 859));
}

#[test]
fn five_empty_frames_end_the_task() {
    let mut runner = AudioRunner::new(&session(1));
    for k in 1..=4u8 {
        match runner.next_frame(0).body {
            FrameBody::Silence(bytes) => assert_eq!(bytes, vec![0xF8, 0xFF, 0xFE]),
            FrameBody::Encoded => panic!("an empty frame was to be encoded"),
        }
        assert_eq!(runner.silent_frames, k);
        assert!(!runner.finished());
    }
    // audio in between starts the count anew
    assert!(matches!(runner.next_frame(960).body, FrameBody::Encoded));
    assert_eq!(runner.silent_frames, 0);
    for _ in 0..5 {
        assert!(!runner.finished());
        assert!(matches!(runner.next_frame(0).body, FrameBody::Silence(_)));
    }
    assert!(runner.finished());
    assert_eq!(runner.seq_num, 10);
}

#[test]
fn speaking_is_announced_once() {
    let mut runner = AudioRunner::new(&session(9));
    match runner.set_speaking(true) {
        Some(VoiceCommand::SetSpeaking(s)) => {
            assert!(s.speaking);
            assert_eq!(s.delay, 0);
            assert_eq!(s.ssrc, 9);
        }
        other => panic!("{:?}", other),
    }
    assert!(runner.set_speaking(true).is_none());
    let (speaking, leave) = runner.finish();
    match speaking {
        Some(VoiceCommand::SetSpeaking(s)) => assert!(!s.speaking),
        other => panic!("{:?}", other),
    }
    match leave {
        GatewayCommand::VoiceStateUpdate(update) => {
            assert_eq!(update.guild_id, GuildId(Snowflake(5)));
            assert_eq!(update.channel_id, None);
            assert!(!update.self_mute && !update.self_deaf);
        }
        other => panic!("{:?}", other),
    }
    let (speaking, _) = runner.finish();
    assert!(speaking.is_none());
}

#[test]
fn buffer_is_filled_until_full_or_the_stream_ends() {
    let mut fill = Fill::new(10);
    assert_eq!(fill.remaining(), 10);
    assert_eq!(fill.on_read(ReadOutcome::Read(4)), FillStep::Continue);
    assert_eq!(fill.on_read(ReadOutcome::Interrupted), FillStep::Continue);
    assert_eq!(fill.remaining(), 6);
    assert_eq!(fill.on_read(ReadOutcome::Read(6)), FillStep::Done(10));
    let mut fill = Fill::new(10);
    assert_eq!(fill.on_read(ReadOutcome::Read(4)), FillStep::Continue);
    assert_eq!(fill.on_read(ReadOutcome::Read(0)), FillStep::Done(4));
    let mut fill = Fill::new(10);
    assert_eq!(fill.on_read(ReadOutcome::Read(0)), FillStep::Done(0));
    let mut fill = Fill::new(10);
    assert_eq!(fill.on_read(ReadOutcome::Read(3)), FillStep::Continue);
    assert_eq!(fill.on_read(ReadOutcome::Failed), FillStep::Failed);
    assert_eq!(fill.filled(), 3);
    let mut fill = Fill::new(4);
    assert_eq!(fill.on_read(ReadOutcome::Read(9)), FillStep::Done(4));
    let mut fill = Fill::new(0);
    assert_eq!(fill.on_read(ReadOutcome::Interrupted), FillStep::Done(0));
}

#[test]
fn samples_are_read_least_significant_byte_first() {
    let bytes = [0x01, 0x00, 0xFF, 0x7F, 0x00, 0x80, 0xFF, 0xFF, 0x34, 0x12];
    let mut samples = [99i16; 7];
    assert_eq!(pcm_samples(&bytes, &mut samples), 5);
    assert_eq!(samples, [1, i16::MAX, i16::MIN, -1, 0x1234, 99, 99]);
    assert_eq!(pcm_samples(&[], &mut samples), 0);
}

#[test]
fn ffmpeg_is_asked_for_raw_samples() {
    assert_eq!(
        ffmpeg_args("clip.ogg", "1", false),
        vec![
            "-i",
            "clip.ogg",
            "-af",
            "volume=1",
            "-f",
            "s16le",
            "-ac",
            "1",
            "-ar",
            "48000",
            "-acodec",
            "pcm_s16le",
            "-"
        ]
    );
    let args = ffmpeg_args("a b.mp3", "0.5", true);
    assert_eq!(args[1], "a b.mp3");
    assert_eq!(args[3], "volume=0.5");
    assert_eq!(args[7], "2");
}
