//! The audio task of a voice session: which packet to send for each audio
//! frame, and when to stop.
//!
//! One frame is 20 milliseconds of audio: 960 samples per channel at 48 kHz.
//! Whoever runs the task reads the frames, encodes and seals the packets,
//! waits for the frame timer and sends; the functions here say what goes into
//! each packet.

use vstd::prelude::*;
use crate::gateway::{GatewayCommand, VoiceStateUpdate};
use crate::ids::GuildId;
use crate::voice::connection::VoiceSession;
use crate::voice::udp::{
    header_nonce, rtp_datagram, rtp_header_array, rtp_header_bytes, silence_bytes, silence_frame,
};
use crate::voice::{SetSpeaking, VoiceCommand};

verus! {

/// Samples per channel in one frame.
pub const SAMPLE_COUNT: usize = 960;

/// Milliseconds of audio in one frame, and between two packets.
pub const FRAME_MILLIS: u64 = 20;

/// Bytes in the buffer of one packet, header included.
pub const PACKET_LEN: usize = 512;

/// Bytes that sealing adds to a packet's body.
pub const ENCRYPTION_HEADROOM: usize = 16;

/// The largest number of bytes of encoded audio in one packet.
pub const MAX_AUDIO_LEN: usize = 484;

/// Empty frames in a row after which the task stops.
pub const MAX_SILENT_FRAMES: u8 = 5;

/// Seconds to wait after the last packet, so that the end is not cut off.
pub const TRAILING_PAD_SECS: u64 = 5;

/// The number of samples to read for one frame.
pub fn frame_samples(is_stereo: bool) -> (n: usize)
    ensures
        n == if is_stereo {
            1920usize
        } else {
            960usize
        },
{
    if is_stereo {
        SAMPLE_COUNT * 2
    } else {
        SAMPLE_COUNT
    }
}

/// The state of the audio task.
#[derive(Debug, Clone)]
pub struct AudioRunner {
    /// Sequence number of the next packet.
    pub seq_num: u16,
    /// Timestamp of the next packet, in samples.
    pub timestamp: u32,
    /// Synchronization source identifier of our audio.
    pub ssrc: u32,
    /// Whether the voice server was told that we speak.
    pub speaking: bool,
    /// The number of empty frames in a row.
    pub silent_frames: u8,
    pub guild_id: GuildId,
    /// The key that seals every packet.
    pub secret_key: [u8; 32],
}

/// What goes into the body of a packet before it is sealed.
#[derive(Debug, Clone)]
pub enum FrameBody {
    /// These bytes: the source had nothing to play.
    Silence(Vec<u8>),
    /// The frame that was read, encoded with Opus into at most
    /// [`MAX_AUDIO_LEN`] bytes.
    Encoded,
}

/// How to build the packet of one frame.
#[derive(Debug, Clone)]
pub struct FramePlan {
    /// The RTP header of the packet.
    pub header: [u8; 12],
    /// The nonce to seal the body with.
    pub nonce: [u8; 24],
    pub body: FrameBody,
}

/// The position in the RTP stream after `frames` frames from the start at
/// `(seq_num, timestamp)`: sequence numbers count frames and timestamps
/// count samples, both wrapping around.
pub open spec fn rtp_position(seq_num: u16, timestamp: u32, frames: nat) -> (u16, u32) {
    (
        ((seq_num + frames) % 0x1_0000) as u16,
        ((timestamp + SAMPLE_COUNT * frames) % 0x1_0000_0000) as u32,
    )
}

/// Each frame moves the position in the RTP stream on by one frame.
pub proof fn lemma_rtp_position_step(seq_num: u16, timestamp: u32, frames: nat)
    ensures
        rtp_position(seq_num, timestamp, 0) == (seq_num, timestamp),
        rtp_position(seq_num, timestamp, frames + 1) == rtp_position(
            rtp_position(seq_num, timestamp, frames).0,
            rtp_position(seq_num, timestamp, frames).1,
            1,
        ),
{
    let s = seq_num as int + frames as int;
    let t = timestamp as int + 960 * frames as int;
    assert(((s % 0x1_0000) + 1) % 0x1_0000 == (s + 1) % 0x1_0000) by {
        vstd::arithmetic::div_mod::lemma_add_mod_noop(s, 1, 0x1_0000);
    }
    assert(((t % 0x1_0000_0000) + 960) % 0x1_0000_0000 == (t + 960) % 0x1_0000_0000) by {
        vstd::arithmetic::div_mod::lemma_add_mod_noop(t, 960, 0x1_0000_0000);
    }
}

/// Within one pass through the sequence numbers, a later packet has the
/// larger sequence number: the packets of a session are ordered by
/// `(seq_num, timestamp)` up to wrapping.
pub proof fn lemma_rtp_increasing(seq_num: u16, timestamp: u32, i: nat, j: nat)
    requires
        i < j,
        seq_num + j < 0x1_0000,
    ensures
        rtp_position(seq_num, timestamp, i).0 < rtp_position(seq_num, timestamp, j).0,
        timestamp + SAMPLE_COUNT * j < 0x1_0000_0000 ==> rtp_position(seq_num, timestamp, i).1
            < rtp_position(seq_num, timestamp, j).1,
{
    assert(SAMPLE_COUNT * i < SAMPLE_COUNT * j) by (nonlinear_arith)
        requires
            i < j,
            SAMPLE_COUNT == 960,
    ;
}

impl AudioRunner {
    /// The audio task of a session, before its first frame.
    pub fn new(session: &VoiceSession) -> (r: AudioRunner)
        ensures
            r.seq_num == 0,
            r.timestamp == 0,
            r.ssrc == session.ssrc,
            !r.speaking,
            r.silent_frames == 0,
            r.guild_id == session.guild_id,
            r.secret_key == session.secret_key,
    {
        AudioRunner {
            seq_num: 0,
            timestamp: 0,
            ssrc: session.ssrc,
            speaking: false,
            silent_frames: 0,
            guild_id: session.guild_id,
            secret_key: session.secret_key,
        }
    }

    /// Notes whether we speak; the command to send where that is news.
    pub fn set_speaking(&mut self, speaking: bool) -> (r: Option<VoiceCommand>)
        ensures
            *final(self) == (AudioRunner { speaking, ..*old(self) }),
            r == if old(self).speaking == speaking {
                None
            } else {
                Some(
                    VoiceCommand::SetSpeaking(SetSpeaking { speaking, delay: 0, ssrc: old(self).ssrc }),
                )
            },
    {
        if self.speaking == speaking {
            return None;
        }
        self.speaking = speaking;
        Some(VoiceCommand::SetSpeaking(SetSpeaking { speaking, delay: 0, ssrc: self.ssrc }))
    }

    /// Whether the task is done: the source was empty five times in a row.
    pub fn finished(&self) -> (r: bool)
        ensures
            r == (self.silent_frames >= MAX_SILENT_FRAMES),
    {
        self.silent_frames >= MAX_SILENT_FRAMES
    }

    /// Plans the packet for the frame that was just read, `frame_size`
    /// samples long. The packet's header carries the current sequence
    /// number, timestamp and source; its nonce is the header followed by
    /// twelve zero bytes. An empty frame is answered with the silence packet
    /// and counted (the count stops at 255); any other frame is to be encoded
    /// and ends the count.
    /// Afterwards the sequence number is one larger and the timestamp 960
    /// larger, both wrapping around.
    pub fn next_frame(&mut self, frame_size: usize) -> (plan: FramePlan)
        ensures
            plan.header@ == rtp_header_bytes(old(self).seq_num, old(self).timestamp, old(self).ssrc),
            plan.nonce@ == plan.header@ + Seq::new(12, |i: int| 0u8),
            match plan.body {
                FrameBody::Silence(bytes) => frame_size == 0 && bytes@ == silence_bytes(),
                FrameBody::Encoded => frame_size != 0,
            },
            (final(self).seq_num, final(self).timestamp) == rtp_position(
                old(self).seq_num,
                old(self).timestamp,
                1,
            ),
            final(self).silent_frames == if frame_size != 0 {
                0
            } else if old(self).silent_frames < u8::MAX {
                old(self).silent_frames + 1
            } else {
                u8::MAX as int
            },
            final(self).ssrc == old(self).ssrc,
            final(self).speaking == old(self).speaking,
            final(self).guild_id == old(self).guild_id,
            final(self).secret_key == old(self).secret_key,
    {
        let header = rtp_header_array(self.seq_num, self.timestamp, self.ssrc);
        let nonce = header_nonce(&header);
        let body = if frame_size == 0 {
            self.silent_frames = self.silent_frames.saturating_add(1);
            FrameBody::Silence(silence_frame())
        } else {
            self.silent_frames = 0;
            FrameBody::Encoded
        };
        self.seq_num = self.seq_num.wrapping_add(1);
        self.timestamp = self.timestamp.wrapping_add(960);
        FramePlan { header, nonce, body }
    }

    /// The datagram of a packet: its header, then its sealed body.
    pub fn datagram(plan: &FramePlan, sealed: &[u8]) -> (r: Vec<u8>)
        ensures
            r@ == plan.header@ + sealed@,
    {
        rtp_datagram(&plan.header, sealed)
    }

    /// What to send when the task is done, after the trailing pad: over the
    /// voice websocket that we no longer speak, if the server thinks we do,
    /// and over the gateway that we leave the voice channel.
    pub fn finish(&mut self) -> (r: (Option<VoiceCommand>, GatewayCommand))
        ensures
            *final(self) == (AudioRunner { speaking: false, ..*old(self) }),
            r.0 == if old(self).speaking {
                Some(
                    VoiceCommand::SetSpeaking(
                        SetSpeaking { speaking: false, delay: 0, ssrc: old(self).ssrc },
                    ),
                )
            } else {
                None
            },
            r.1 == GatewayCommand::VoiceStateUpdate(
                VoiceStateUpdate {
                    guild_id: old(self).guild_id,
                    channel_id: None,
                    self_mute: false,
                    self_deaf: false,
                },
            ),
    {
        let speaking = self.set_speaking(false);
        (
            speaking,
            GatewayCommand::VoiceStateUpdate(
                VoiceStateUpdate {
                    guild_id: self.guild_id,
                    channel_id: None,
                    self_deaf: false,
                    self_mute: false,
                },
            ),
        )
    }
}

} // verus!
