//! The decisions of the capture pipeline (sender) and of the playback
//! pipeline (receiver): which frames go on, which are dropped, and what the
//! audio device plays on each tick.
use crate::config::StreamConfig;
use crate::error::{CodecError, SndlinkError};
use crate::framing::{frame_packet, framed, ProtocolError, MAX_PACKET_BYTES};
use crate::queue::{after_push, OverflowPolicy, RelayQueue};
use vstd::prelude::*;

verus! {

/// How packets travel between the two ends.
#[derive(Clone, Copy, Debug, PartialEq, Eq, Structural)]
pub enum Transport {
    /// One packet per datagram, no framing.
    Datagram,
    /// A byte stream: each packet after its 2-byte little-endian length.
    Stream,
}

/// The bytes a packet takes on the wire.
pub open spec fn wire_bytes(transport: Transport, packet: Seq<u8>) -> Seq<u8> {
    match transport {
        Transport::Datagram => packet,
        Transport::Stream => framed(packet),
    }
}

/// Checks a captured frame before it is encoded: only whole frames of the
/// configured length go on.
pub fn check_captured(frame_len: usize, captured: &[i16]) -> (r: Result<(), SndlinkError>)
    ensures
        captured@.len() == frame_len ==> r is Ok,
        captured@.len() != frame_len ==> r == Err::<(), SndlinkError>(
            SndlinkError::PartialFrame { expected: frame_len, got: captured@.len() as usize },
        ),
{
    if captured.len() == frame_len {
        Ok(())
    } else {
        Err(SndlinkError::PartialFrame { expected: frame_len, got: captured.len() })
    }
}

/// What the sender writes for one encoded frame: the packet itself on a
/// datagram transport, the framed packet on a byte stream. Codec failures and
/// packets larger than a receiver accepts end the session.
pub fn outbound_packet(transport: Transport, encoded: Result<Vec<u8>, CodecError>) -> (r: Result<
    Vec<u8>,
    SndlinkError,
>)
    ensures
        match encoded {
            Err(e) => r == Err::<Vec<u8>, SndlinkError>(SndlinkError::Codec(e)),
            Ok(p) => if p@.len() > MAX_PACKET_BYTES {
                r == Err::<Vec<u8>, SndlinkError>(
                    SndlinkError::Protocol(ProtocolError::Oversized { len: p@.len() as usize }),
                )
            } else {
                r matches Ok(w) && w@ == wire_bytes(transport, p@)
            },
        },
{
    match encoded {
        Err(e) => Err(SndlinkError::Codec(e)),
        Ok(packet) => {
            if packet.len() > MAX_PACKET_BYTES {
                return Err(SndlinkError::Protocol(ProtocolError::Oversized { len: packet.len() }));
            }
            match transport {
                Transport::Datagram => Ok(packet),
                Transport::Stream => match frame_packet(packet.as_slice()) {
                    Ok(w) => Ok(w),
                    Err(e) => Err(SndlinkError::Protocol(e)),
                },
            }
        },
    }
}

/// What became of one inbound packet.
#[derive(Clone, Copy, Debug, PartialEq, Eq, Structural)]
pub enum DecodeOutcome {
    /// Its frame was queued for playback.
    Queued,
    /// Its frame was decoded but the queue was full.
    Dropped,
    /// It could not be decoded into a whole frame and was discarded.
    Discarded(SndlinkError),
}

/// The receiver's queue for a session: `cfg.queue_capacity` frames of the
/// configured length.
pub fn open_relay(cfg: &StreamConfig, policy: OverflowPolicy) -> (q: RelayQueue)
    requires
        cfg.valid(),
    ensures
        q.wf(),
        q.items().len() == 0,
        q.capacity_spec() == cfg.queue_capacity,
        q.frame_len_spec() == cfg.frame_len_spec(),
        q.policy_spec() == policy,
{
    RelayQueue::new(cfg.queue_capacity, cfg.frame_len(), policy)
}

/// Hands the decoder's result for one packet to the queue. `pcm` is the
/// buffer the decoder wrote, `decoded` what it returned: the number of samples
/// per channel, or its error. Only a whole frame is queued; a failed or short
/// decode discards the packet and the session goes on.
pub fn accept_decoded(
    queue: &mut RelayQueue,
    frame_samples: usize,
    pcm: Vec<i16>,
    decoded: Result<usize, CodecError>,
) -> (r: DecodeOutcome)
    requires
        old(queue).wf(),
        pcm@.len() == old(queue).frame_len_spec(),
    ensures
        final(queue).wf(),
        final(queue).capacity_spec() == old(queue).capacity_spec(),
        final(queue).frame_len_spec() == old(queue).frame_len_spec(),
        final(queue).policy_spec() == old(queue).policy_spec(),
        match decoded {
            Err(e) => r == DecodeOutcome::Discarded(SndlinkError::Codec(e)) && final(queue).items()
                == old(queue).items(),
            Ok(n) => if n != frame_samples {
                r == DecodeOutcome::Discarded(
                    SndlinkError::PartialFrame { expected: frame_samples, got: n },
                ) && final(queue).items() == old(queue).items()
            } else {
                &&& final(queue).items() == after_push(
                    old(queue).items(),
                    old(queue).capacity_spec(),
                    old(queue).policy_spec(),
                    pcm,
                )
                &&& r == if old(queue).items().len() < old(queue).capacity_spec()
                    || old(queue).policy_spec() == OverflowPolicy::EvictOldest {
                    DecodeOutcome::Queued
                } else {
                    DecodeOutcome::Dropped
                }
            },
        },
{
    match decoded {
        Err(e) => DecodeOutcome::Discarded(SndlinkError::Codec(e)),
        Ok(n) => {
            if n != frame_samples {
                DecodeOutcome::Discarded(
                    SndlinkError::PartialFrame { expected: frame_samples, got: n },
                )
            } else if queue.push(pcm) {
                DecodeOutcome::Queued
            } else {
                DecodeOutcome::Dropped
            }
        },
    }
}

/// A frame the sender accepts for encoding (`check_captured`) and any frame the
/// receiver takes from a queue opened for the same configuration have the same
/// length: the codec may change samples, never the frame length.
pub proof fn lemma_frame_integrity(cfg: StreamConfig, captured: Seq<i16>, q: RelayQueue, i: int)
    requires
        cfg.valid(),
        captured.len() == cfg.frame_len_spec(),
        q.wf(),
        q.frame_len_spec() == cfg.frame_len_spec(),
        0 <= i < q.items().len(),
    ensures
        q.items()[i]@.len() == captured.len(),
{
    q.lemma_frame_lengths();
}

/// The playback side: what it has played so far.
pub struct Playback {
    delivered: u64,
    underruns: u64,
}

/// A counter advanced by one, staying at its largest value.
pub open spec fn bump(n: u64) -> u64 {
    if n < u64::MAX {
        (n + 1) as u64
    } else {
        n
    }
}

impl Playback {
    /// Ticks that played a queued frame.
    pub closed spec fn delivered_spec(&self) -> u64 {
        self.delivered
    }

    /// Ticks that found the queue empty and played silence.
    pub closed spec fn underruns_spec(&self) -> u64 {
        self.underruns
    }

    /// Nothing played yet.
    pub fn new() -> (r: Playback)
        ensures
            r.delivered_spec() == 0,
            r.underruns_spec() == 0,
    {
        Playback { delivered: 0, underruns: 0 }
    }

    /// One playback tick: fills `out` with the oldest queued frame, or with
    /// silence when none is queued. Never waits. Returns whether a frame was
    /// played.
    pub fn tick(&mut self, queue: &mut RelayQueue, out: &mut [i16]) -> (r: bool)
        requires
            old(queue).wf(),
            old(out)@.len() == old(queue).frame_len_spec(),
        ensures
            final(queue).wf(),
            final(queue).capacity_spec() == old(queue).capacity_spec(),
            final(queue).frame_len_spec() == old(queue).frame_len_spec(),
            final(queue).policy_spec() == old(queue).policy_spec(),
            r == (old(queue).items().len() > 0),
            final(out)@.len() == old(out)@.len(),
            r ==> final(out)@ == old(queue).items()[0]@ && final(queue).items() == old(
                queue,
            ).items().drop_first(),
            !r ==> final(out)@ == Seq::new(old(out)@.len(), |i: int| 0i16) && final(queue).items()
                == old(queue).items(),
            final(self).delivered_spec() == if r {
                bump(old(self).delivered_spec())
            } else {
                old(self).delivered_spec()
            },
            final(self).underruns_spec() == if r {
                old(self).underruns_spec()
            } else {
                bump(old(self).underruns_spec())
            },
    {
        let n = out.len();
        match queue.pop() {
            Some(frame) => {
                let mut i: usize = 0;
                while i < n
                    invariant
                        n == out@.len(),
                        frame@.len() == n,
                        i <= n,
                        forall|j: int| 0 <= j < i ==> out@[j] == frame@[j],
                    decreases n - i,
                {
                    out[i] = frame[i];
                    i = i + 1;
                }
                assert(out@ =~= frame@);
                if self.delivered < u64::MAX {
                    self.delivered = self.delivered + 1;
                }
                true
            },
            None => {
                let mut i: usize = 0;
                while i < n
                    invariant
                        n == out@.len(),
                        i <= n,
                        forall|j: int| 0 <= j < i ==> out@[j] == 0i16,
                    decreases n - i,
                {
                    out[i] = 0;
                    i = i + 1;
                }
                assert(out@ =~= Seq::new(n as nat, |i: int| 0i16));
                if self.underruns < u64::MAX {
                    self.underruns = self.underruns + 1;
                }
                false
            },
        }
    }

    /// Ticks that played a queued frame.
    pub fn delivered(&self) -> (r: u64)
        ensures
            r == self.delivered_spec(),
    {
        self.delivered
    }

    /// Ticks that found the queue empty and played silence.
    pub fn underruns(&self) -> (r: u64)
        ensures
            r == self.underruns_spec(),
    {
        self.underruns
    }
}

} // verus!
