//! Transmission gateway: the single serialization point for outgoing frames.
//!
//! Both the keep-alive task and every color request submit their frames
//! here. The gateway owns the model of the transmitted byte stream: each
//! send appends one whole frame atomically, so the stream is always a
//! concatenation of complete frames and two writers can never interleave
//! at the byte level. The radio write itself happens outside the library,
//! one frame at a time, in the order recorded here.

use crate::codec::FRAME_LEN;
use vstd::prelude::*;

verus! {

/// The serialization point for every outgoing write.
pub struct Gateway {
    /// The bytes handed to the physical link, in transmission order.
    pub wire: Vec<u8>,
    /// The same stream, frame by frame.
    pub frames: Ghost<Seq<Seq<u8>>>,
}

impl Gateway {
    /// The gateway's invariant: the wire stream is exactly the
    /// concatenation of the recorded frames, and every recorded frame is
    /// whole.
    pub open spec fn wf(self) -> bool {
        &&& self.wire@ == self.frames@.flatten()
        &&& forall|i: int|
            0 <= i < self.frames@.len() ==> (#[trigger] self.frames@[i]).len() == FRAME_LEN
    }

    /// A fresh gateway with nothing transmitted.
    pub fn new() -> (g: Gateway)
        ensures
            g.wf(),
            g.wire@ == Seq::<u8>::empty(),
            g.frames@ == Seq::<Seq<u8>>::empty(),
    {
        let g = Gateway { wire: Vec::new(), frames: Ghost(Seq::empty()) };
        proof {
            assert(g.frames@.flatten() =~= Seq::<u8>::empty());
        }
        g
    }

    /// Transmit one frame: append it, whole and uninterleaved, to the wire
    /// stream.
    pub fn send(&mut self, frame: &Vec<u8>)
        requires
            old(self).wf(),
            frame@.len() == FRAME_LEN,
        ensures
            final(self).wf(),
            final(self).wire@ == old(self).wire@ + frame@,
            final(self).frames@ == old(self).frames@.push(frame@),
    {
        let ghost previous = self.frames@;
        let mut i: usize = 0;
        while i < frame.len()
            invariant
                i <= frame@.len(),
                self.wire@ == old(self).wire@ + frame@.take(i as int),
                self.frames == old(self).frames,
            decreases frame@.len() - i,
        {
            proof {
                assert((old(self).wire@ + frame@.take(i as int)).push(frame@[i as int]) =~= old(
                    self,
                ).wire@ + frame@.take(i + 1));
            }
            self.wire.push(frame[i]);
            i += 1;
        }
        self.frames = Ghost(self.frames@.push(frame@));
        proof {
            assert(frame@.take(frame@.len() as int) =~= frame@);
            previous.lemma_flatten_push(frame@);
        }
    }
}

/// A sequence of whole frames flattens to a stream of exactly
/// `FRAME_LEN` bytes per frame.
proof fn lemma_flatten_whole_frames(frames: Seq<Seq<u8>>)
    requires
        forall|i: int| 0 <= i < frames.len() ==> (#[trigger] frames[i]).len() == FRAME_LEN,
    ensures
        frames.flatten().len() == FRAME_LEN * frames.len(),
    decreases frames.len(),
{
    if frames.len() == 0 {
    } else {
        let rest = frames.drop_first();
        assert(forall|i: int|
            0 <= i < rest.len() ==> (#[trigger] rest[i]).len() == FRAME_LEN) by {
            assert(forall|i: int| 0 <= i < rest.len() ==> rest[i] == frames[i + 1]);
        }
        lemma_flatten_whole_frames(rest);
        assert(frames.flatten() == frames.first() + rest.flatten());
    }
}

/// No interleaving: whatever mix of keep-alive and color writes reached a
/// well-formed gateway, the transmitted byte stream is a whole number of
/// frames — its length is exactly `FRAME_LEN` times the number of sends.
pub proof fn lemma_stream_whole_frames(g: Gateway)
    requires
        g.wf(),
    ensures
        g.wire@.len() == FRAME_LEN * g.frames@.len(),
        (g.wire@.len() as int) % (FRAME_LEN as int) == 0,
{
    lemma_flatten_whole_frames(g.frames@);
    assert((FRAME_LEN * g.frames@.len()) as int % (FRAME_LEN as int) == 0) by (nonlinear_arith);
}

} // verus!
