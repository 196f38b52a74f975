//! The stream parameters both ends must agree on, validated once at session start.
use crate::queue::MAX_CAPACITY;
use vstd::prelude::*;

verus! {

/// Samples per second per channel.
pub const SAMPLE_RATE: u32 = 48000;

/// Interleaved channels per frame.
pub const CHANNELS: u32 = 2;

/// Duration of one frame in milliseconds.
pub const FRAME_MS: u32 = 20;

/// Codec target bitrate in bits per second.
pub const BITRATE: i32 = 96000;

/// Whether the codec runs at a variable bitrate.
pub const VBR: bool = true;

/// Whether the codec adds in-band forward error correction.
pub const FEC: bool = false;

/// Expected packet loss, in percent, hinted to the encoder.
pub const PACKET_LOSS_PERC: i32 = 5;

/// Frames the receiver buffers between network and playback.
pub const QUEUE_CAPACITY: usize = 20;

/// Largest number of samples (all channels) a frame may hold.
pub const MAX_FRAME_LEN: usize = 1048576;

/// The channel layouts the codec supports.
#[derive(Clone, Copy, Debug, PartialEq, Eq, Structural)]
pub enum ChannelLayout {
    Mono,
    Stereo,
}

/// The layout for a channel count, if the codec supports one.
pub open spec fn layout_of(channels: u32) -> Option<ChannelLayout> {
    if channels == 1 {
        Some(ChannelLayout::Mono)
    } else if channels == 2 {
        Some(ChannelLayout::Stereo)
    } else {
        None
    }
}

/// The codec's channel layout for `channels` interleaved channels.
pub fn opus_channels(channels: u32) -> (r: Option<ChannelLayout>)
    ensures
        r == layout_of(channels),
{
    match channels {
        1 => Some(ChannelLayout::Mono),
        2 => Some(ChannelLayout::Stereo),
        _ => None,
    }
}

/// Why a configuration was refused.
#[derive(Clone, Copy, Debug, PartialEq, Eq, Structural)]
pub enum ConfigError {
    /// The channel count is neither 1 nor 2.
    Channels { channels: u32 },
    /// The frame holds no sample.
    EmptyFrame,
    /// The frame holds more than `MAX_FRAME_LEN` samples.
    FrameTooLong,
    /// The bitrate is not positive.
    Bitrate { bitrate: i32 },
    /// The packet-loss hint is outside 0 to 100 percent.
    PacketLoss { percent: i32 },
    /// The queue capacity is zero or above `MAX_CAPACITY`.
    QueueCapacity { capacity: usize },
}

/// Parameters of one streaming session.
#[derive(Clone, Copy, Debug, PartialEq, Eq, Structural)]
pub struct StreamConfig {
    pub sample_rate: u32,
    pub channels: u32,
    pub frame_ms: u32,
    pub bitrate: i32,
    pub vbr: bool,
    pub fec: bool,
    pub packet_loss_perc: i32,
    pub queue_capacity: usize,
}

impl StreamConfig {
    /// Samples per channel in one frame: `frame_ms * sample_rate / 1000`.
    pub open spec fn frame_samples_spec(&self) -> int {
        (self.frame_ms as int * self.sample_rate as int) / 1000
    }

    /// Samples of all channels in one frame.
    pub open spec fn frame_len_spec(&self) -> int {
        self.frame_samples_spec() * self.channels as int
    }

    /// The first thing wrong with the configuration, if any.
    pub open spec fn config_error(&self) -> Option<ConfigError> {
        if layout_of(self.channels) is None {
            Some(ConfigError::Channels { channels: self.channels })
        } else if self.frame_samples_spec() == 0 {
            Some(ConfigError::EmptyFrame)
        } else if self.frame_len_spec() > MAX_FRAME_LEN {
            Some(ConfigError::FrameTooLong)
        } else if self.bitrate <= 0 {
            Some(ConfigError::Bitrate { bitrate: self.bitrate })
        } else if self.packet_loss_perc < 0 || self.packet_loss_perc > 100 {
            Some(ConfigError::PacketLoss { percent: self.packet_loss_perc })
        } else if self.queue_capacity == 0 || self.queue_capacity > MAX_CAPACITY {
            Some(ConfigError::QueueCapacity { capacity: self.queue_capacity })
        } else {
            None
        }
    }

    /// Whether a session may start with this configuration.
    pub open spec fn valid(&self) -> bool {
        self.config_error() is None
    }

    /// The fixed protocol parameters: 48 kHz stereo, 20 ms frames, 96 kbit/s
    /// VBR without FEC, a 5% loss hint, 20 queued frames.
    pub fn standard() -> (r: StreamConfig)
        ensures
            r.valid(),
            r.sample_rate == SAMPLE_RATE,
            r.channels == CHANNELS,
            r.frame_ms == FRAME_MS,
            r.bitrate == BITRATE,
            r.vbr == VBR,
            r.fec == FEC,
            r.packet_loss_perc == PACKET_LOSS_PERC,
            r.queue_capacity == QUEUE_CAPACITY,
            r.frame_len_spec() == 1920,
    {
        let r = StreamConfig {
            sample_rate: SAMPLE_RATE,
            channels: CHANNELS,
            frame_ms: FRAME_MS,
            bitrate: BITRATE,
            vbr: VBR,
            fec: FEC,
            packet_loss_perc: PACKET_LOSS_PERC,
            queue_capacity: QUEUE_CAPACITY,
        };
        assert(r.frame_samples_spec() == 960) by {
            assert(20int * 48000int == 960000);
        }
        r
    }

    /// Checks the configuration once, before a session starts.
    pub fn validate(&self) -> (r: Result<(), ConfigError>)
        ensures
            self.valid() ==> r is Ok,
            self.config_error() matches Some(e) ==> r == Err::<(), ConfigError>(e),
    {
        if opus_channels(self.channels).is_none() {
            return Err(ConfigError::Channels { channels: self.channels });
        }
        assert(self.frame_ms as u64 * self.sample_rate as u64 <= 0xffff_ffffu64 * 0xffff_ffffu64)
            by (nonlinear_arith)
            requires
                self.frame_ms <= 0xffff_ffffu32,
                self.sample_rate <= 0xffff_ffffu32,
        ;
        let samples: u64 = (self.frame_ms as u64 * self.sample_rate as u64) / 1000;
        if samples == 0 {
            return Err(ConfigError::EmptyFrame);
        }
        assert(samples * 2 <= 2 * 0xffff_ffffu64 * 0xffff_ffffu64 / 1000) by (nonlinear_arith)
            requires
                samples == (self.frame_ms as u64 * self.sample_rate as u64) / 1000,
                self.frame_ms <= 0xffff_ffffu32,
                self.sample_rate <= 0xffff_ffffu32,
        ;
        assert(self.channels == 1 || self.channels == 2);
        assert(samples * self.channels <= samples * 2) by (nonlinear_arith)
            requires
                self.channels <= 2,
        ;
        let len: u64 = samples * self.channels as u64;
        if len > MAX_FRAME_LEN as u64 {
            return Err(ConfigError::FrameTooLong);
        }
        if self.bitrate <= 0 {
            return Err(ConfigError::Bitrate { bitrate: self.bitrate });
        }
        if self.packet_loss_perc < 0 || self.packet_loss_perc > 100 {
            return Err(ConfigError::PacketLoss { percent: self.packet_loss_perc });
        }
        if self.queue_capacity == 0 || self.queue_capacity > MAX_CAPACITY {
            return Err(ConfigError::QueueCapacity { capacity: self.queue_capacity });
        }
        Ok(())
    }

    /// Samples per channel in one frame.
    pub fn frame_samples(&self) -> (r: usize)
        requires
            self.valid(),
        ensures
            r as int == self.frame_samples_spec(),
    {
        proof {
            assert(self.frame_samples_spec() <= self.frame_len_spec()) by (nonlinear_arith)
                requires
                    self.frame_samples_spec() >= 0,
                    self.channels >= 1,
                    self.frame_len_spec() == self.frame_samples_spec() * self.channels as int,
            ;
        }
        ((self.frame_ms as u64 * self.sample_rate as u64) / 1000) as usize
    }

    /// Samples of all channels in one frame.
    pub fn frame_len(&self) -> (r: usize)
        requires
            self.valid(),
        ensures
            r as int == self.frame_len_spec(),
    {
        let samples = self.frame_samples();
        samples * self.channels as usize
    }
}

} // verus!
