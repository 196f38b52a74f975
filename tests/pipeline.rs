use sndlink::config::{opus_channels, ChannelLayout, ConfigError, StreamConfig, MAX_FRAME_LEN};
use sndlink::error::{CodecError, SndlinkError};
use sndlink::framing::{deframe, ProtocolError, MAX_PACKET_BYTES};
use sndlink::pipeline::{
    accept_decoded, check_captured, open_relay, outbound_packet, DecodeOutcome, Playback,
    Transport,
};
use sndlink::queue::{OverflowPolicy, RelayQueue};

fn frame(tag: i16, len: usize) -> Vec<i16> {
    (0..len).map(|i| tag.wrapping_add(i as i16)).collect()
}

#[test]
fn standard_config_sizes() {
    let cfg = StreamConfig::standard();
    assert_eq!(cfg.validate(), Ok(()));
    assert_eq!(cfg.frame_samples(), 960);
    assert_eq!(cfg.frame_len(), 1920);
    assert_eq!(cfg.sample_rate, 48000);
    assert_eq!(cfg.bitrate, 96000);
    assert!(cfg.vbr);
    assert!(!cfg.fec);
    assert_eq!(cfg.packet_loss_perc, 5);
    assert_eq!(cfg.queue_capacity, 20);
}

#[test]
fn mono_config_sizes() {
    let mut cfg = StreamConfig::standard();
    cfg.channels = 1;
    cfg.frame_ms = 10;
    cfg.sample_rate = 16000;
    assert_eq!(cfg.validate(), Ok(()));
    assert_eq!(cfg.frame_samples(), 160);
    assert_eq!(cfg.frame_len(), 160);
}

#[test]
fn config_errors() {
    let base = StreamConfig::standard();
    let mut c = base;
    c.channels = 3;
    assert_eq!(c.validate(), Err(ConfigError::Channels { channels: 3 }));
    let mut c = base;
    c.frame_ms = 0;
    assert_eq!(c.validate(), Err(ConfigError::EmptyFrame));
    let mut c = base;
    c.sample_rate = 40;
    c.frame_ms = 20;
    assert_eq!(c.validate(), Err(ConfigError::EmptyFrame));
    let mut c = base;
    c.frame_ms = u32::MAX;
    c.sample_rate = u32::MAX;
    assert_eq!(c.validate(), Err(ConfigError::FrameTooLong));
    let mut c = base;
    c.frame_ms = 10923;
    assert!(2 * (c.frame_ms as usize * 48) > MAX_FRAME_LEN);
    assert_eq!(c.validate(), Err(ConfigError::FrameTooLong));
    let mut c = base;
    c.bitrate = 0;
    assert_eq!(c.validate(), Err(ConfigError::Bitrate { bitrate: 0 }));
    let mut c = base;
    c.packet_loss_perc = 101;
    assert_eq!(c.validate(), Err(ConfigError::PacketLoss { percent: 101 }));
    let mut c = base;
    c.packet_loss_perc = -1;
    assert_eq!(c.validate(), Err(ConfigError::PacketLoss { percent: -1 }));
    let mut c = base;
    c.queue_capacity = 0;
    assert_eq!(c.validate(), Err(ConfigError::QueueCapacity { capacity: 0 }));
}

#[test]
fn channel_layouts() {
    assert_eq!(opus_channels(1), Some(ChannelLayout::Mono));
    assert_eq!(opus_channels(2), Some(ChannelLayout::Stereo));
    assert_eq!(opus_channels(0), None);
    assert_eq!(opus_channels(3), None);
}

#[test]
fn error_conversions() {
    assert_eq!(
        SndlinkError::from(CodecError { code: -4 }),
        SndlinkError::Codec(CodecError { code: -4 })
    );
    assert_eq!(
        SndlinkError::from(ProtocolError::Truncated),
        SndlinkError::Protocol(ProtocolError::Truncated)
    );
    assert_eq!(
        SndlinkError::from(ConfigError::EmptyFrame),
        SndlinkError::Config(ConfigError::EmptyFrame)
    );
}

#[test]
fn captured_frame_length_is_checked() {
    assert_eq!(check_captured(4, &[1, 2, 3, 4]), Ok(()));
    assert_eq!(
        check_captured(4, &[1, 2, 3]),
        Err(SndlinkError::PartialFrame { expected: 4, got: 3 })
    );
}

#[test]
fn outbound_datagram_and_stream() {
    assert_eq!(outbound_packet(Transport::Datagram, Ok(vec![5, 6, 7])), Ok(vec![5, 6, 7]));
    let w = outbound_packet(Transport::Stream, Ok(vec![5, 6, 7])).unwrap();
    assert_eq!(w, vec![3, 0, 5, 6, 7]);
    assert_eq!(deframe(&w), Ok((vec![5, 6, 7], 5)));
}

#[test]
fn outbound_errors() {
    assert_eq!(
        outbound_packet(Transport::Stream, Err(CodecError { code: -1 })),
        Err(SndlinkError::Codec(CodecError { code: -1 }))
    );
    assert_eq!(
        outbound_packet(Transport::Datagram, Ok(vec![0; MAX_PACKET_BYTES + 1])),
        Err(SndlinkError::Protocol(ProtocolError::Oversized { len: 10241 }))
    );
}

#[test]
fn decode_outcomes() {
    let mut q = RelayQueue::new(1, 4, OverflowPolicy::DropNewest);
    assert_eq!(
        accept_decoded(&mut q, 2, frame(1, 4), Err(CodecError { code: -4 })),
        DecodeOutcome::Discarded(SndlinkError::Codec(CodecError { code: -4 }))
    );
    assert_eq!(
        accept_decoded(&mut q, 2, frame(1, 4), Ok(1)),
        DecodeOutcome::Discarded(SndlinkError::PartialFrame { expected: 2, got: 1 })
    );
    assert!(q.is_empty());
    assert_eq!(accept_decoded(&mut q, 2, frame(1, 4), Ok(2)), DecodeOutcome::Queued);
    assert_eq!(accept_decoded(&mut q, 2, frame(2, 4), Ok(2)), DecodeOutcome::Dropped);
    assert_eq!(q.pop(), Some(frame(1, 4)));
}

#[test]
fn decode_evicts_when_configured() {
    let mut q = RelayQueue::new(1, 2, OverflowPolicy::EvictOldest);
    assert_eq!(accept_decoded(&mut q, 1, frame(1, 2), Ok(1)), DecodeOutcome::Queued);
    assert_eq!(accept_decoded(&mut q, 1, frame(2, 2), Ok(1)), DecodeOutcome::Queued);
    assert_eq!(q.pop(), Some(frame(2, 2)));
}

#[test]
fn underrun_fills_silence() {
    let cfg = StreamConfig::standard();
    let mut q = open_relay(&cfg, OverflowPolicy::DropNewest);
    let mut p = Playback::new();
    let mut out = vec![123i16; cfg.frame_len()];
    assert!(!p.tick(&mut q, &mut out));
    assert_eq!(out.len(), 1920);
    assert!(out.iter().all(|&s| s == 0));
    assert_eq!(p.underruns(), 1);
    assert_eq!(p.delivered(), 0);
}

#[test]
fn tick_copies_frame_verbatim() {
    let mut q = RelayQueue::new(4, 3, OverflowPolicy::DropNewest);
    q.push(vec![-1, 2, i16::MAX]);
    let mut p = Playback::new();
    let mut out = [0i16; 3];
    assert!(p.tick(&mut q, &mut out));
    assert_eq!(out, [-1, 2, i16::MAX]);
    assert_eq!(p.delivered(), 1);
    assert_eq!(p.underruns(), 0);
    assert!(q.is_empty());
}

#[test]
fn steady_state_delivers_all_in_order() {
    let cfg = StreamConfig::standard();
    let len = cfg.frame_len();
    let mut q = open_relay(&cfg, OverflowPolicy::DropNewest);
    let mut p = Playback::new();
    let mut out = vec![0i16; len];
    let mut played = Vec::new();
    for t in 0..100 {
        let outcome = accept_decoded(&mut q, cfg.frame_samples(), frame(t, len), Ok(960));
        assert_eq!(outcome, DecodeOutcome::Queued);
        assert!(p.tick(&mut q, &mut out));
        played.push(out.clone());
    }
    assert!(!p.tick(&mut q, &mut out));
    assert_eq!(p.delivered(), 100);
    assert_eq!(p.underruns(), 1);
    for t in 0..100 {
        assert_eq!(played[t as usize], frame(t, len));
    }
}

#[test]
fn steady_state_zero_underruns_while_streaming() {
    let cfg = StreamConfig::standard();
    let len = cfg.frame_len();
    let mut q = open_relay(&cfg, OverflowPolicy::DropNewest);
    let mut p = Playback::new();
    let mut out = vec![0i16; len];
    for t in 0..100 {
        accept_decoded(&mut q, 960, frame(t, len), Ok(960));
        p.tick(&mut q, &mut out);
        assert_eq!(out, frame(t, len));
    }
    assert_eq!(p.underruns(), 0);
    assert_eq!(p.delivered(), 100);
}

#[test]
fn burst_loss_substitutes_silence_on_lost_ticks() {
    let cfg = StreamConfig::standard();
    let len = cfg.frame_len();
    let mut q = open_relay(&cfg, OverflowPolicy::DropNewest);
    let mut p = Playback::new();
    let mut out = vec![0i16; len];
    for t in 0..100i16 {
        let lost = t % 5 == 4;
        if !lost {
            assert_eq!(accept_decoded(&mut q, 960, frame(t + 1, len), Ok(960)), DecodeOutcome::Queued);
        }
        let played = p.tick(&mut q, &mut out);
        assert_eq!(played, !lost);
        if lost {
            assert!(out.iter().all(|&s| s == 0));
        } else {
            assert_eq!(out, frame(t + 1, len));
        }
    }
    assert_eq!(p.delivered(), 80);
    assert_eq!(p.underruns(), 20);
}

#[test]
fn corrupt_packets_do_not_stop_the_decode_task() {
    let mut q = RelayQueue::new(20, 2, OverflowPolicy::DropNewest);
    let mut queued = 0;
    for t in 0..10i16 {
        let decoded = if t % 3 == 0 { Err(CodecError { code: -4 }) } else { Ok(1) };
        if accept_decoded(&mut q, 1, frame(t, 2), decoded) == DecodeOutcome::Queued {
            queued += 1;
        }
    }
    assert_eq!(queued, 6);
    assert_eq!(q.len(), 6);
    assert_eq!(q.pop(), Some(frame(1, 2)));
}

#[test]
fn capacity_overrun_through_decode_task() {
    let mut q = RelayQueue::new(20, 2, OverflowPolicy::DropNewest);
    let mut dropped = 0;
    for t in 0..25i16 {
        if accept_decoded(&mut q, 1, frame(t, 2), Ok(1)) == DecodeOutcome::Dropped {
            dropped += 1;
        }
    }
    assert_eq!(dropped, 5);
    let mut p = Playback::new();
    let mut out = [0i16; 2];
    for t in 0..20i16 {
        assert!(p.tick(&mut q, &mut out));
        assert_eq!(out.to_vec(), frame(t, 2));
    }
    assert!(!p.tick(&mut q, &mut out));
}
